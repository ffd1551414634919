//! The diagnostics session of one node or of a group of nodes: loaded data
//! and its refresh lifecycle, the group aggregator, check selection, and the
//! remediation protocol (confirm, preview, apply, report).
use vstd::prelude::*;

use crate::addons::{spec_no_addons, DetectedAddons};
use crate::cni::{detect_cni, fallback_plugin, listing_decides};
use crate::k8s::{k8s_error_text, listed_plugin, plugin_pods_of, K8sError, PodRecord};
use crate::types::{check_views, CheckView, CniType, DiagnosticCheck, DiagnosticContext, DiagnosticFix, FixAction, PodHealthInfo};

verus! {

/// Seconds between automatic refreshes.
pub const AUTO_REFRESH_INTERVAL_SECS: u64 = 10;

/// Number of check categories: system, control plane, network plugin,
/// services, add-ons.
pub const CATEGORY_COUNT: usize = 5;

/// How a group session shows its nodes.
#[derive(Clone, Copy, Debug, PartialEq, Eq, Default, Structural)]
pub enum GroupViewMode {
    /// All nodes' checks together, each name prefixed with its node.
    #[default]
    Interleaved,
    /// One node at a time, selected by tab.
    ByNode,
}

/// Everything a refresh loads for one node (or merges for a group).
#[derive(Clone, Debug)]
pub struct DiagnosticsData {
    pub hostname: String,
    pub address: String,
    pub context: DiagnosticContext,
    pub system_checks: Vec<DiagnosticCheck>,
    pub kubernetes_checks: Vec<DiagnosticCheck>,
    pub service_checks: Vec<DiagnosticCheck>,
    pub cni_checks: Vec<DiagnosticCheck>,
    pub addon_checks: Vec<DiagnosticCheck>,
    pub detected_addons: DetectedAddons,
}

/// The checks of category `k` (0 system, 1 control plane, 2 network plugin,
/// 3 services, 4 add-ons).
pub open spec fn checks_of(d: DiagnosticsData, k: int) -> Seq<DiagnosticCheck> {
    if k == 0 {
        d.system_checks@
    } else if k == 1 {
        d.kubernetes_checks@
    } else if k == 2 {
        d.cni_checks@
    } else if k == 3 {
        d.service_checks@
    } else {
        d.addon_checks@
    }
}

impl DiagnosticsData {
    /// Data with the given identity and context and no checks yet.
    pub fn new(hostname: String, address: String, context: DiagnosticContext) -> (r: DiagnosticsData)
        ensures
            r.hostname == hostname,
            r.address == address,
            r.context == context,
            forall|k: int| 0 <= k < 5 ==> (#[trigger] checks_of(r, k)).len() == 0,
            r.detected_addons == spec_no_addons(),
    {
        DiagnosticsData {
            hostname,
            address,
            context,
            system_checks: Vec::new(),
            kubernetes_checks: Vec::new(),
            service_checks: Vec::new(),
            cni_checks: Vec::new(),
            addon_checks: Vec::new(),
            detected_addons: DetectedAddons::none(),
        }
    }

    /// The checks of category `k`.
    pub fn category(&self, k: usize) -> (r: &Vec<DiagnosticCheck>)
        requires
            k < CATEGORY_COUNT,
        ensures
            r@ == checks_of(*self, k as int),
    {
        if k == 0 {
            &self.system_checks
        } else if k == 1 {
            &self.kubernetes_checks
        } else if k == 2 {
            &self.cni_checks
        } else if k == 3 {
            &self.service_checks
        } else {
            &self.addon_checks
        }
    }
}

/// One node's data inside a group session.
#[derive(Clone, Debug)]
pub struct NodeDiagnosticsData {
    pub hostname: String,
    pub data: DiagnosticsData,
}

/// Position of the entry for `h`, if any (the last one, were there several).
pub open spec fn node_pos(nodes: Seq<NodeDiagnosticsData>, h: Seq<char>) -> Option<int>
    decreases nodes.len(),
{
    if nodes.len() == 0 {
        None
    } else if nodes.last().hostname@ == h {
        Some(nodes.len() - 1)
    } else {
        node_pos(nodes.drop_last(), h)
    }
}

/// `nodes` with the entry for `n`'s host replaced by `n`, or `n` appended.
pub open spec fn upsert(nodes: Seq<NodeDiagnosticsData>, n: NodeDiagnosticsData) -> Seq<NodeDiagnosticsData> {
    match node_pos(nodes, n.hostname@) {
        Some(i) => nodes.update(i, n),
        None => nodes.push(n),
    }
}

/// A check as the interleaved view shows it: its name prefixed with "[host] ".
pub open spec fn labelled(host: Seq<char>, c: CheckView) -> CheckView {
    CheckView { name: "["@ + host + "] "@ + c.name, ..c }
}

/// The interleaved view of category `k`: every node's checks in node order,
/// each labelled with its node.
pub open spec fn merged(nodes: Seq<NodeDiagnosticsData>, k: int) -> Seq<CheckView>
    decreases nodes.len(),
{
    if nodes.len() == 0 {
        Seq::empty()
    } else {
        merged(nodes.drop_last(), k) + check_views(checks_of(nodes.last().data, k)).map_values(
            |c: CheckView| labelled(nodes.last().hostname@, c),
        )
    }
}

/// Host names of the entries are distinct.
pub open spec fn distinct_hosts(nodes: Seq<NodeDiagnosticsData>) -> bool {
    forall|i: int, j: int|
        0 <= i < j < nodes.len() ==> #[trigger] nodes[i].hostname@ != #[trigger] nodes[j].hostname@
}

proof fn lemma_node_pos(nodes: Seq<NodeDiagnosticsData>, h: Seq<char>)
    ensures
        match node_pos(nodes, h) {
            Some(i) => 0 <= i < nodes.len() && nodes[i].hostname@ == h && forall|j: int|
                i < j < nodes.len() ==> (#[trigger] nodes[j]).hostname@ != h,
            None => forall|j: int| 0 <= j < nodes.len() ==> (#[trigger] nodes[j]).hostname@ != h,
        },
    decreases nodes.len(),
{
    if nodes.len() > 0 {
        let pre = nodes.drop_last();
        lemma_node_pos(pre, h);
        assert forall|j: int| 0 <= j < pre.len() implies #[trigger] pre[j] == nodes[j] by {}
        if nodes.last().hostname@ != h {
            assert forall|j: int| 0 <= j < nodes.len() && node_pos(pre, h) is None implies (
            #[trigger] nodes[j]).hostname@ != h by {
                if j < pre.len() {
                    assert(pre[j] == nodes[j]);
                }
            }
            assert forall|j: int|
                node_pos(pre, h) is Some && node_pos(pre, h)->0 < j < nodes.len() implies (
            #[trigger] nodes[j]).hostname@ != h by {
                if j < pre.len() {
                    assert(pre[j] == nodes[j]);
                }
            }
        }
    }
}

proof fn lemma_node_pos_unique(nodes: Seq<NodeDiagnosticsData>, h: Seq<char>, i: int)
    requires
        0 <= i < nodes.len(),
        nodes[i].hostname@ == h,
        forall|j: int| i < j < nodes.len() ==> (#[trigger] nodes[j]).hostname@ != h,
    ensures
        node_pos(nodes, h) == Some(i),
    decreases nodes.len(),
{
    if i < nodes.len() - 1 {
        assert(nodes.drop_last()[i] == nodes[i]);
        lemma_node_pos_unique(nodes.drop_last(), h, i);
    }
}

proof fn lemma_upsert_distinct(nodes: Seq<NodeDiagnosticsData>, n: NodeDiagnosticsData)
    requires
        distinct_hosts(nodes),
    ensures
        distinct_hosts(upsert(nodes, n)),
{
    lemma_node_pos(nodes, n.hostname@);
}

/// Adding a node's data twice is the same as adding it once: the entry is
/// replaced, not appended again, so the merged view of every category is
/// the same after the second call as after the first.
pub proof fn lemma_add_node_idempotent(nodes: Seq<NodeDiagnosticsData>, n: NodeDiagnosticsData)
    ensures
        upsert(upsert(nodes, n), n) == upsert(nodes, n),
        forall|k: int| merged(upsert(upsert(nodes, n), n), k) == merged(upsert(nodes, n), k),
{
    let once = upsert(nodes, n);
    lemma_node_pos(nodes, n.hostname@);
    match node_pos(nodes, n.hostname@) {
        Some(i) => {
            assert forall|j: int| i < j < once.len() implies (#[trigger] once[j]).hostname@
                != n.hostname@ by {
                assert(once[j] == nodes[j]);
            }
            lemma_node_pos_unique(once, n.hostname@, i);
            assert(once.update(i, n) =~= once);
        },
        None => {
            lemma_node_pos_unique(once, n.hostname@, nodes.len() as int);
            assert(once.update(nodes.len() as int, n) =~= once);
        },
    }
}


/// Index of the entry for `h`, searched from the back.
fn find_node(nodes: &Vec<NodeDiagnosticsData>, h: &String) -> (r: Option<usize>)
    ensures
        r is Some <==> node_pos(nodes@, h@) is Some,
        r is Some ==> node_pos(nodes@, h@) == Some(r->0 as int) && r->0 < nodes@.len(),
{
    proof {
        lemma_node_pos(nodes@, h@);
    }
    let mut i = nodes.len();
    assert(nodes@.subrange(0, i as int) =~= nodes@);
    while i > 0
        invariant
            i <= nodes@.len(),
            node_pos(nodes@, h@) == node_pos(nodes@.subrange(0, i as int), h@),
        decreases i,
    {
        let j = i - 1;
        let ghost sub = nodes@.subrange(0, i as int);
        assert(sub.drop_last() =~= nodes@.subrange(0, j as int));
        assert(sub.last() == nodes@[j as int]);
        if nodes[j].hostname == *h {
            return Some(j);
        }
        i = j;
    }
    None
}

/// A copy of `c` whose name is prefixed with "[host] ".
fn label_check(host: &str, c: &DiagnosticCheck) -> (r: DiagnosticCheck)
    ensures
        r@ == labelled(host@, c@),
{
    let mut r = c.duplicate();
    let mut name = String::from_str("[");
    name.append(host);
    name.append("] ");
    name.append(c.name.as_str());
    r.name = name;
    r
}

/// The interleaved list of category `k`.
fn merge_category(nodes: &Vec<NodeDiagnosticsData>, k: usize) -> (r: Vec<DiagnosticCheck>)
    requires
        k < CATEGORY_COUNT,
    ensures
        check_views(r@) == merged(nodes@, k as int),
{
    let mut out: Vec<DiagnosticCheck> = Vec::new();
    let mut i: usize = 0;
    assert(check_views(out@) =~= merged(nodes@.subrange(0, 0), k as int));
    while i < nodes.len()
        invariant
            k < CATEGORY_COUNT,
            i <= nodes@.len(),
            check_views(out@) == merged(nodes@.subrange(0, i as int), k as int),
        decreases nodes@.len() - i,
    {
        let node = &nodes[i];
        let list = node.data.category(k);
        let ghost host = node.hostname@;
        let ghost base = check_views(out@);
        let mut j: usize = 0;
        assert(check_views(list@.subrange(0, 0)).map_values(|c: CheckView| labelled(host, c))
            =~= Seq::<CheckView>::empty());
        assert(base + Seq::<CheckView>::empty() =~= base);
        while j < list.len()
            invariant
                j <= list@.len(),
                host == node.hostname@,
                check_views(out@) == base + check_views(list@.subrange(0, j as int)).map_values(
                    |c: CheckView| labelled(host, c),
                ),
            decreases list@.len() - j,
        {
            let c = label_check(node.hostname.as_str(), &list[j]);
            let ghost before = out@;
            out.push(c);
            assert(check_views(out@) =~= check_views(before).push(c@));
            assert(check_views(list@.subrange(0, j + 1)).map_values(|c: CheckView| labelled(host, c))
                =~= check_views(list@.subrange(0, j as int)).map_values(
                |c: CheckView| labelled(host, c),
            ).push(labelled(host, list@[j as int]@)));
            assert(check_views(out@) =~= base + check_views(list@.subrange(0, j + 1)).map_values(
                |c: CheckView| labelled(host, c),
            ));
            j = j + 1;
        }
        let ghost next = nodes@.subrange(0, i + 1);
        assert(next.drop_last() =~= nodes@.subrange(0, i as int));
        assert(next.last() == nodes@[i as int]);
        assert(list@.subrange(0, list@.len() as int) =~= list@);
        i = i + 1;
    }
    assert(nodes@.subrange(0, nodes@.len() as int) =~= nodes@);
    out
}

/// Result of applying a configuration to one node.
#[derive(Clone, Debug)]
pub struct ApplyConfigResult {
    pub node: String,
    pub mode_details: String,
    pub warnings: Vec<String>,
}

/// A fix waiting for the operator's confirmation, with its preview.
#[derive(Clone, Debug)]
pub struct PendingAction {
    pub check_id: String,
    pub fix: DiagnosticFix,
    pub preview: Option<String>,
}

/// The one action the caller carries out to apply a confirmed fix.
#[derive(Clone, Debug)]
pub enum FixDispatch {
    /// Hand this configuration patch, as in-memory YAML, to the node's
    /// `apply_configuration`, in reboot mode when `reboot` is set.
    ApplyConfiguration { yaml: String, reboot: bool },
    /// Restart the service with this id.
    RestartService(String),
    /// Nothing to carry out.
    Nothing,
}

/// What confirming the dialog led to.
#[derive(Clone, Debug)]
pub enum ConfirmOutcome {
    /// The caller should now apply the pending fix.
    Apply,
    /// The caller should hand this command text to the operator (clipboard).
    CopyCommand(String),
    /// The dialog was closed and the fix dropped.
    Closed,
    /// No dialog was open.
    Ignored,
}

/// Stage of the remediation protocol.
#[derive(Clone, Copy, Debug, PartialEq, Eq, Structural)]
pub enum RemediationState {
    Idle,
    Confirming,
    Applying,
    Reported,
}

/// Stage of the load lifecycle.
#[derive(Clone, Copy, Debug, PartialEq, Eq, Structural)]
pub enum LoadState {
    Empty,
    Loading,
    Loaded,
    Error,
}

/// The five check lists of one completed refresh.
#[derive(Clone, Debug)]
pub struct CheckLists {
    pub system: Vec<DiagnosticCheck>,
    pub kubernetes: Vec<DiagnosticCheck>,
    pub service: Vec<DiagnosticCheck>,
    pub cni: Vec<DiagnosticCheck>,
    pub addon: Vec<DiagnosticCheck>,
}

/// The machine-config patch that loads a kernel module.
pub open spec fn kernel_module_patch(name: Seq<char>) -> Seq<char> {
    "machine:\n  kernel:\n    modules:\n      - name: "@ + name
}

/// The preview shown before a fix is applied: the patch text for patches
/// (synthesized for a kernel module), the command for host commands.
pub open spec fn preview_of(a: FixAction) -> Option<Seq<char>> {
    match a {
        FixAction::AddKernelModule(name) => Some(kernel_module_patch(name@)),
        FixAction::ApplyConfigPatch { yaml, .. } => Some(yaml@),
        FixAction::HostCommand { command, .. } => Some(command@),
        _ => None,
    }
}

/// The model of an optional text.
pub open spec fn text_view(t: Option<String>) -> Option<Seq<char>> {
    match t {
        Some(s) => Some(s@),
        None => None,
    }
}

/// What applying a fix dispatches: both kinds of configuration patch go to
/// `apply_configuration` (a kernel module as its synthesized patch, always
/// in reboot mode).
pub open spec fn dispatch_of(d: FixDispatch, a: FixAction) -> bool {
    match a {
        FixAction::AddKernelModule(name) => d matches FixDispatch::ApplyConfiguration { yaml, reboot }
            && yaml@ == kernel_module_patch(name@) && reboot,
        FixAction::ApplyConfigPatch { yaml, requires_reboot } => d matches FixDispatch::ApplyConfiguration {
            yaml: y,
            reboot,
        } && y@ == yaml@ && reboot == requires_reboot,
        FixAction::RestartService(s) => d matches FixDispatch::RestartService(id) && id@ == s@,
        _ => d is Nothing,
    }
}

/// Diagnostics session for one node or a group of nodes.
pub struct DiagnosticsComponent {
    /// Last loaded data; kept when a refresh fails.
    pub data: Option<DiagnosticsData>,
    pub loading: bool,
    pub loaded: bool,
    /// Last session-level error (timeout, missing client).
    pub error: Option<String>,
    /// Selected category, below `CATEGORY_COUNT`.
    pub selected_category: usize,
    /// Selected check within the category.
    pub selected_check: usize,
    pub pending_action: Option<PendingAction>,
    pub show_confirmation: bool,
    /// Confirmation dialog button: 0 cancel (copy for host commands), 1 apply (close).
    pub confirmation_selection: usize,
    pub show_details: bool,
    pub details_title: String,
    pub details_content: String,
    pub applying_fix: bool,
    pub apply_result: Option<Result<Vec<ApplyConfigResult>, String>>,
    pub auto_refresh: bool,
    /// Control-plane endpoint used for worker nodes' kubeconfig.
    pub controlplane_endpoint: Option<String>,
    pub config_path: Option<String>,
    pub is_group_view: bool,
    pub group_name: String,
    /// The group's nodes as (hostname, address).
    pub nodes: Vec<(String, String)>,
    pub group_view_mode: GroupViewMode,
    /// Per-node data, one entry per host name.
    pub node_data: Vec<NodeDiagnosticsData>,
    pub selected_node_tab: usize,
    pub node_role: String,
}

impl DiagnosticsComponent {
    /// Well-formed: a valid category is selected and per-node entries have
    /// distinct host names.
    pub open spec fn wf(&self) -> bool {
        &&& self.selected_category < CATEGORY_COUNT
        &&& distinct_hosts(self.node_data@)
    }

    /// The data the session shows: in a group's by-node mode the selected
    /// node's own data (none when the tab is out of range or the node has
    /// no data yet), otherwise the loaded (or merged) data.
    pub open spec fn display_data(&self) -> Option<DiagnosticsData> {
        if self.is_group_view && self.group_view_mode == GroupViewMode::ByNode {
            if self.selected_node_tab < self.nodes@.len() {
                match node_pos(self.node_data@, self.nodes@[self.selected_node_tab as int].0@) {
                    Some(i) => Some(self.node_data@[i].data),
                    None => None,
                }
            } else {
                None
            }
        } else {
            self.data
        }
    }

    /// The checks of the selected category in the shown data.
    pub open spec fn current_list(&self) -> Seq<DiagnosticCheck> {
        match self.display_data() {
            Some(d) => checks_of(d, self.selected_category as int),
            None => Seq::empty(),
        }
    }

    /// The merged view is rebuilt from the per-node data: every category
    /// lists every node's checks, labelled with the node.
    pub open spec fn group_merged(&self) -> bool {
        &&& self.data is Some
        &&& forall|k: int|
            0 <= k < 5 ==> check_views(#[trigger] checks_of(self.data->0, k)) == merged(
                self.node_data@,
                k,
            )
    }

    /// Stage of the remediation protocol.
    pub open spec fn spec_remediation_state(&self) -> RemediationState {
        if self.applying_fix {
            RemediationState::Applying
        } else if self.show_confirmation {
            RemediationState::Confirming
        } else if self.apply_result is Some {
            RemediationState::Reported
        } else {
            RemediationState::Idle
        }
    }

    /// Stage of the load lifecycle.
    pub open spec fn spec_load_state(&self) -> LoadState {
        if self.loading {
            LoadState::Loading
        } else if self.error is Some {
            LoadState::Error
        } else if self.loaded {
            LoadState::Loaded
        } else {
            LoadState::Empty
        }
    }

    fn blank(data: DiagnosticsData, config_path: Option<String>) -> (r: DiagnosticsComponent)
        ensures
            r.wf(),
            r.data == Some(data),
            !r.loading && !r.loaded && r.error is None,
            r.selected_category == 0 && r.selected_check == 0,
            r.pending_action is None && !r.show_confirmation && r.confirmation_selection == 1,
            !r.show_details && !r.applying_fix && r.apply_result is None,
            r.auto_refresh,
            r.controlplane_endpoint is None,
            r.config_path == config_path,
            !r.is_group_view,
            r.nodes@.len() == 0,
            r.group_view_mode == GroupViewMode::Interleaved,
            r.node_data@.len() == 0,
            r.selected_node_tab == 0,
    {
        DiagnosticsComponent {
            data: Some(data),
            loading: false,
            loaded: false,
            error: None,
            selected_category: 0,
            selected_check: 0,
            pending_action: None,
            show_confirmation: false,
            confirmation_selection: 1,
            show_details: false,
            details_title: String::new(),
            details_content: String::new(),
            applying_fix: false,
            apply_result: None,
            auto_refresh: true,
            controlplane_endpoint: None,
            config_path,
            is_group_view: false,
            group_name: String::new(),
            nodes: Vec::new(),
            group_view_mode: GroupViewMode::Interleaved,
            node_data: Vec::new(),
            selected_node_tab: 0,
            node_role: String::new(),
        }
    }

    /// A session for one node, seeded with its identity and no checks.
    pub fn new(hostname: String, address: String, node_role: String, config_path: Option<String>) -> (r:
        DiagnosticsComponent)
        ensures
            r.wf(),
            !r.is_group_view,
            r.data is Some,
            r.data->0.hostname@ == hostname@,
            r.data->0.address@ == address@,
            r.data->0.context.hostname@ == hostname@,
            r.data->0.context.node_role@ == node_role@,
            text_view(r.data->0.context.node_endpoint) == Some(address@),
            forall|k: int| 0 <= k < 5 ==> (#[trigger] checks_of(r.data->0, k)).len() == 0,
            r.node_role@ == node_role@,
            r.config_path == config_path,
            r.spec_load_state() == LoadState::Empty,
            r.spec_remediation_state() == RemediationState::Idle,
            r.selected_category == 0 && r.selected_check == 0,
    {
        let mut context = DiagnosticContext::new();
        context.node_role = node_role.clone();
        context.hostname = hostname.clone();
        context.node_endpoint = Some(address.clone());
        let data = DiagnosticsData::new(hostname, address, context);
        let mut r = Self::blank(data, config_path);
        r.node_role = node_role;
        r
    }

    /// A session for a group of nodes, given as (hostname, address) pairs.
    pub fn new_group(
        group_name: String,
        node_role: String,
        nodes: Vec<(String, String)>,
        cp_endpoint: Option<String>,
        config_path: Option<String>,
    ) -> (r: DiagnosticsComponent)
        ensures
            r.wf(),
            r.is_group_view,
            r.group_name@ == group_name@,
            r.nodes@ == nodes@,
            r.node_data@.len() == 0,
            r.data is Some,
            r.data->0.hostname@ == group_name@,
            r.data->0.address@.len() == 0,
            r.data->0.context.hostname@ == group_name@,
            r.data->0.context.node_role@ == node_role@,
            forall|k: int| 0 <= k < 5 ==> (#[trigger] checks_of(r.data->0, k)).len() == 0,
            r.group_view_mode == GroupViewMode::Interleaved,
            r.selected_node_tab == 0,
            r.controlplane_endpoint == cp_endpoint,
            r.config_path == config_path,
            r.node_role@ == node_role@,
            r.spec_load_state() == LoadState::Empty,
            r.spec_remediation_state() == RemediationState::Idle,
            r.selected_category == 0 && r.selected_check == 0,
    {
        let mut context = DiagnosticContext::new();
        context.node_role = node_role.clone();
        context.hostname = group_name.clone();
        let data = DiagnosticsData::new(group_name.clone(), String::new(), context);
        let mut r = Self::blank(data, config_path);
        r.is_group_view = true;
        r.group_name = group_name;
        r.nodes = nodes;
        r.controlplane_endpoint = cp_endpoint;
        r.node_role = node_role;
        r
    }

    fn rebuild_group_data(&mut self)
        requires
            old(self).wf(),
        ensures
            final(self).group_merged(),
            final(self).wf(),
            *final(self) == (DiagnosticsComponent { data: final(self).data, ..*old(self) }),
            old(self).data is Some ==> {
                let (o, n) = (old(self).data->0, final(self).data->0);
                &&& n.hostname == o.hostname
                &&& n.address == o.address
                &&& n.context == o.context
                &&& n.detected_addons == o.detected_addons
            },
    {
        let mut data = match self.data.take() {
            Some(d) => d,
            None => DiagnosticsData::new(String::new(), String::new(), DiagnosticContext::new()),
        };
        data.system_checks = merge_category(&self.node_data, 0);
        data.kubernetes_checks = merge_category(&self.node_data, 1);
        data.cni_checks = merge_category(&self.node_data, 2);
        data.service_checks = merge_category(&self.node_data, 3);
        data.addon_checks = merge_category(&self.node_data, 4);
        self.data = Some(data);
    }

    /// Records one node's data in a group session (replacing what that node
    /// had) and rebuilds the merged view from all nodes' current data. A
    /// single-node session ignores the call.
    pub fn add_node_diagnostics(&mut self, hostname: String, data: DiagnosticsData)
        requires
            old(self).wf(),
        ensures
            final(self).wf(),
            !old(self).is_group_view ==> *final(self) == *old(self),
            old(self).is_group_view ==> {
                &&& final(self).node_data@ == upsert(
                    old(self).node_data@,
                    NodeDiagnosticsData { hostname, data },
                )
                &&& final(self).group_merged()
                &&& *final(self) == (DiagnosticsComponent {
                    data: final(self).data,
                    node_data: final(self).node_data,
                    ..*old(self)
                })
            },
    {
        if !self.is_group_view {
            return;
        }
        let pos = find_node(&self.node_data, &hostname);
        let entry = NodeDiagnosticsData { hostname, data };
        proof {
            lemma_upsert_distinct(self.node_data@, entry);
        }
        match pos {
            Some(i) => {
                self.node_data.set(i, entry);
            },
            None => {
                self.node_data.push(entry);
            },
        }
        self.rebuild_group_data();
    }

    /// The loaded (or merged) data.
    pub fn data(&self) -> (r: Option<&DiagnosticsData>)
        ensures
            match r {
                Some(d) => self.data == Some(*d),
                None => self.data is None,
            },
    {
        self.data.as_ref()
    }

    /// Takes the loaded data out of the session.
    pub fn take_data(&mut self) -> (r: Option<DiagnosticsData>)
        ensures
            r == old(self).data,
            *final(self) == (DiagnosticsComponent { data: None, ..*old(self) }),
    {
        self.data.take()
    }

    /// Replaces the loaded data.
    pub fn set_data(&mut self, data: DiagnosticsData)
        ensures
            *final(self) == (DiagnosticsComponent { data: Some(data), ..*old(self) }),
    {
        self.data = Some(data);
    }

    /// Sets the control-plane endpoint used for worker nodes' kubeconfig.
    pub fn set_controlplane_endpoint(&mut self, endpoint: Option<String>)
        ensures
            *final(self) == (DiagnosticsComponent { controlplane_endpoint: endpoint, ..*old(self) }),
    {
        self.controlplane_endpoint = endpoint;
    }

    /// Records a session-level error; the loaded data stays.
    pub fn set_error(&mut self, error: String)
        ensures
            *final(self) == (DiagnosticsComponent {
                error: Some(error),
                loading: false,
                ..*old(self)
            }),
    {
        self.error = Some(error);
        self.loading = false;
    }

    /// The data to show (see `display_data`).
    pub fn get_display_data(&self) -> (r: Option<&DiagnosticsData>)
        ensures
            match r {
                Some(d) => self.display_data() == Some(*d),
                None => self.display_data() is None,
            },
            self.is_group_view && self.group_view_mode == GroupViewMode::ByNode
                && self.selected_node_tab >= self.nodes@.len() ==> r is None,
    {
        if self.is_group_view && self.group_view_mode == GroupViewMode::ByNode {
            if self.selected_node_tab < self.nodes.len() {
                let host = &self.nodes[self.selected_node_tab].0;
                match find_node(&self.node_data, host) {
                    Some(i) => Some(&self.node_data[i].data),
                    None => None,
                }
            } else {
                None
            }
        } else {
            match &self.data {
                Some(d) => Some(d),
                None => None,
            }
        }
    }

    /// Number of checks in the selected category.
    pub fn current_count(&self) -> (r: usize)
        requires
            self.wf(),
        ensures
            r == self.current_list().len(),
    {
        match self.get_display_data() {
            Some(d) => d.category(self.selected_category).len(),
            None => 0,
        }
    }

    /// The selected check, if the selection points at one.
    pub fn selected_check(&self) -> (r: Option<&DiagnosticCheck>)
        requires
            self.wf(),
        ensures
            self.selected_check < self.current_list().len() ==> r is Some && *r->0
                == self.current_list()[self.selected_check as int],
            self.selected_check >= self.current_list().len() ==> r is None,
    {
        match self.get_display_data() {
            Some(d) => {
                let list = d.category(self.selected_category);
                if self.selected_check < list.len() {
                    Some(&list[self.selected_check])
                } else {
                    None
                }
            },
            None => None,
        }
    }

    /// Moves to the next category (wrapping) and to its first check.
    pub fn next_category(&mut self)
        requires
            old(self).wf(),
        ensures
            final(self).wf(),
            *final(self) == (DiagnosticsComponent {
                selected_category: ((old(self).selected_category + 1) % 5) as usize,
                selected_check: 0,
                ..*old(self)
            }),
    {
        self.selected_category = (self.selected_category + 1) % CATEGORY_COUNT;
        self.selected_check = 0;
    }

    /// Moves to the previous category (wrapping) and to its first check.
    pub fn prev_category(&mut self)
        requires
            old(self).wf(),
        ensures
            final(self).wf(),
            *final(self) == (DiagnosticsComponent {
                selected_category: if old(self).selected_category == 0 {
                    4
                } else {
                    (old(self).selected_category - 1) as usize
                },
                selected_check: 0,
                ..*old(self)
            }),
    {
        self.selected_category = if self.selected_category == 0 {
            CATEGORY_COUNT - 1
        } else {
            self.selected_category - 1
        };
        self.selected_check = 0;
    }

    /// Moves to the next check; stays on the last one.
    pub fn next_check(&mut self)
        requires
            old(self).wf(),
        ensures
            final(self).wf(),
            *final(self) == (DiagnosticsComponent {
                selected_check: if old(self).selected_check + 1 < old(self).current_list().len() {
                    (old(self).selected_check + 1) as usize
                } else {
                    old(self).selected_check
                },
                ..*old(self)
            }),
    {
        let count = self.current_count();
        if count > 0 && self.selected_check < count - 1 {
            self.selected_check = self.selected_check + 1;
        }
    }

    /// Moves to the previous check; stays on the first one.
    pub fn prev_check(&mut self)
        requires
            old(self).wf(),
        ensures
            final(self).wf(),
            *final(self) == (DiagnosticsComponent {
                selected_check: if old(self).selected_check > 0 {
                    (old(self).selected_check - 1) as usize
                } else {
                    0
                },
                ..*old(self)
            }),
    {
        if self.selected_check > 0 {
            self.selected_check = self.selected_check - 1;
        }
    }

    /// Clamps the selected check into the selected category's bounds.
    pub fn ensure_valid_selection(&mut self)
        requires
            old(self).wf(),
        ensures
            final(self).wf(),
            *final(self) == (DiagnosticsComponent {
                selected_check: if old(self).current_list().len() == 0 {
                    0
                } else if old(self).selected_check >= old(self).current_list().len() {
                    (old(self).current_list().len() - 1) as usize
                } else {
                    old(self).selected_check
                },
                ..*old(self)
            }),
    {
        let count = self.current_count();
        if count == 0 {
            self.selected_check = 0;
        } else if self.selected_check >= count {
            self.selected_check = count - 1;
        }
    }

    /// Opens the fix for the selected check: with a fix, the confirmation
    /// dialog with its preview (the copy button preselected for host
    /// commands, apply otherwise); without a fix but with details, the
    /// read-only details view. Nothing happens while a fix is being applied
    /// or when no check is selected.
    pub fn initiate_fix(&mut self)
        requires
            old(self).wf(),
        ensures
            final(self).wf(),
            old(self).applying_fix || old(self).selected_check >= old(self).current_list().len()
                ==> *final(self) == *old(self),
            !old(self).applying_fix && old(self).selected_check < old(self).current_list().len()
                ==> {
                let c = old(self).current_list()[old(self).selected_check as int];
                match c.fix {
                    Some(fix) => {
                        &&& final(self).pending_action is Some
                        &&& final(self).pending_action->0.check_id == c.id
                        &&& final(self).pending_action->0.fix == fix
                        &&& text_view(final(self).pending_action->0.preview) == preview_of(fix.action)
                        &&& *final(self) == (DiagnosticsComponent {
                            pending_action: final(self).pending_action,
                            show_confirmation: true,
                            confirmation_selection: if fix.action.spec_is_host_command() {
                                0
                            } else {
                                1
                            },
                            ..*old(self)
                        })
                    },
                    None => match c.details {
                        Some(details) => *final(self) == (DiagnosticsComponent {
                            show_details: true,
                            details_title: c.name,
                            details_content: details,
                            ..*old(self)
                        }),
                        None => *final(self) == *old(self),
                    },
                }
            },
    {
        if self.applying_fix {
            return;
        }
        let selected = match self.selected_check() {
            Some(c) => Some(c.duplicate()),
            None => None,
        };
        match selected {
            Some(check) => {
                match check.fix {
                    Some(fix) => {
                        let preview = match &fix.action {
                            FixAction::AddKernelModule(name) => {
                                let mut p = String::from_str(
                                    "machine:\n  kernel:\n    modules:\n      - name: ",
                                );
                                p.append(name.as_str());
                                Some(p)
                            },
                            FixAction::ApplyConfigPatch { yaml, .. } => Some(yaml.clone()),
                            FixAction::HostCommand { command, .. } => Some(command.clone()),
                            _ => None,
                        };
                        let host = fix.action.is_host_command();
                        self.pending_action = Some(PendingAction { check_id: check.id, fix, preview });
                        self.show_confirmation = true;
                        self.confirmation_selection = if host { 0 } else { 1 };
                    },
                    None => {
                        match check.details {
                            Some(details) => {
                                self.details_title = check.name;
                                self.details_content = details;
                                self.show_details = true;
                            },
                            None => {},
                        }
                    },
                }
            },
            None => {},
        }
    }

    /// Closes the details view.
    pub fn close_details(&mut self)
        ensures
            *final(self) == (DiagnosticsComponent { show_details: false, ..*old(self) }),
    {
        self.show_details = false;
    }

    /// Selects the dialog's first button (cancel, or copy for host commands).
    pub fn select_first_button(&mut self)
        ensures
            *final(self) == (DiagnosticsComponent { confirmation_selection: 0, ..*old(self) }),
    {
        self.confirmation_selection = 0;
    }

    /// Selects the dialog's second button (apply, or close for host commands).
    pub fn select_second_button(&mut self)
        ensures
            *final(self) == (DiagnosticsComponent { confirmation_selection: 1, ..*old(self) }),
    {
        self.confirmation_selection = 1;
    }

    /// Closes the confirmation dialog and drops the pending fix.
    pub fn cancel_fix(&mut self)
        ensures
            *final(self) == (DiagnosticsComponent {
                show_confirmation: false,
                pending_action: None,
                ..*old(self)
            }),
    {
        self.show_confirmation = false;
        self.pending_action = None;
    }

    /// Confirms the dialog's selected button. For a host command the first
    /// button hands out the command text and the second closes the dialog;
    /// otherwise the first cancels and the second asks for the fix to be
    /// applied.
    pub fn confirm(&mut self) -> (r: ConfirmOutcome)
        ensures
            !old(self).show_confirmation ==> r is Ignored && *final(self) == *old(self),
            old(self).show_confirmation ==> {
                let host = old(self).pending_action matches Some(p)
                    && p.fix.action.spec_is_host_command();
                if host && old(self).confirmation_selection == 0 {
                    &&& r matches ConfirmOutcome::CopyCommand(t)
                    &&& old(self).pending_action->0.fix.action matches FixAction::HostCommand {
                        command,
                        ..
                    } && t@ == command@
                    &&& *final(self) == *old(self)
                } else if host || old(self).confirmation_selection == 0 {
                    &&& r is Closed
                    &&& *final(self) == (DiagnosticsComponent {
                        show_confirmation: false,
                        pending_action: None,
                        ..*old(self)
                    })
                } else {
                    r is Apply && *final(self) == *old(self)
                }
            },
    {
        if !self.show_confirmation {
            return ConfirmOutcome::Ignored;
        }
        let host = match &self.pending_action {
            Some(p) => p.fix.action.is_host_command(),
            None => false,
        };
        if host && self.confirmation_selection == 0 {
            match &self.pending_action {
                Some(p) => match &p.fix.action {
                    FixAction::HostCommand { command, .. } => ConfirmOutcome::CopyCommand(
                        command.clone(),
                    ),
                    _ => ConfirmOutcome::Ignored,
                },
                None => ConfirmOutcome::Ignored,
            }
        } else if host || self.confirmation_selection == 0 {
            self.cancel_fix();
            ConfirmOutcome::Closed
        } else {
            ConfirmOutcome::Apply
        }
    }

    /// Starts applying the pending fix: the dialog closes, the session is
    /// marked as applying, and the one action to carry out is returned
    /// (a kernel module is loaded by applying its patch in reboot mode). Actions that
    /// cannot be applied in place dispatch nothing. With no pending fix this
    /// changes nothing and dispatches nothing.
    pub fn apply_pending_fix(&mut self) -> (r: FixDispatch)
        ensures
            old(self).pending_action is None ==> r is Nothing && *final(self) == *old(self),
            old(self).pending_action is Some ==> {
                &&& dispatch_of(r, old(self).pending_action->0.fix.action)
                &&& *final(self) == (DiagnosticsComponent {
                    pending_action: None,
                    show_confirmation: false,
                    applying_fix: !(r is Nothing),
                    ..*old(self)
                })
            },
    {
        let pending = match self.pending_action.take() {
            Some(p) => p,
            None => {
                return FixDispatch::Nothing;
            },
        };
        self.show_confirmation = false;
        let dispatch = match pending.fix.action {
            FixAction::AddKernelModule(name) => {
                let mut yaml = String::from_str("machine:\n  kernel:\n    modules:\n      - name: ");
                yaml.append(name.as_str());
                FixDispatch::ApplyConfiguration { yaml, reboot: true }
            },
            FixAction::ApplyConfigPatch { yaml, requires_reboot } => FixDispatch::ApplyConfiguration {
                yaml,
                reboot: requires_reboot,
            },
            FixAction::RestartService(service) => FixDispatch::RestartService(service),
            _ => FixDispatch::Nothing,
        };
        self.applying_fix = match dispatch {
            FixDispatch::Nothing => false,
            _ => true,
        };
        dispatch
    }

    /// Records the outcome of the dispatched action; only a fix that is
    /// being applied can be reported.
    pub fn report_fix_result(&mut self, result: Result<Vec<ApplyConfigResult>, String>)
        ensures
            old(self).applying_fix ==> *final(self) == (DiagnosticsComponent {
                applying_fix: false,
                apply_result: Some(result),
                ..*old(self)
            }),
            !old(self).applying_fix ==> *final(self) == *old(self),
    {
        if self.applying_fix {
            self.apply_result = Some(result);
            self.applying_fix = false;
        }
    }

    /// Stage of the remediation protocol.
    pub fn remediation_state(&self) -> (r: RemediationState)
        ensures
            r == self.spec_remediation_state(),
    {
        if self.applying_fix {
            RemediationState::Applying
        } else if self.show_confirmation {
            RemediationState::Confirming
        } else if self.apply_result.is_some() {
            RemediationState::Reported
        } else {
            RemediationState::Idle
        }
    }

    /// Stage of the load lifecycle.
    pub fn load_state(&self) -> (r: LoadState)
        ensures
            r == self.spec_load_state(),
    {
        if self.loading {
            LoadState::Loading
        } else if self.error.is_some() {
            LoadState::Error
        } else if self.loaded {
            LoadState::Loaded
        } else {
            LoadState::Empty
        }
    }

    /// Starts a refresh: loading, with any stale error cleared and the last
    /// data still shown. A refresh is not started while another is running;
    /// the result says whether this one started.
    pub fn start_refresh(&mut self) -> (r: bool)
        ensures
            r == !old(self).loading,
            r ==> *final(self) == (DiagnosticsComponent { loading: true, error: None, ..*old(self) }),
            !r ==> *final(self) == *old(self),
    {
        if self.loading {
            return false;
        }
        self.loading = true;
        self.error = None;
        true
    }

    /// Records the platform the node reported.
    pub fn set_platform(&mut self, platform: String)
        ensures
            old(self).data is None ==> *final(self) == *old(self),
            old(self).data is Some ==> {
                let (o, n) = (old(self).data->0, final(self).data->0);
                &&& final(self).data is Some
                &&& n.context.platform == platform
                &&& n.context.is_container == (platform@ == "container"@)
                &&& n == (DiagnosticsData {
                    context: DiagnosticContext {
                        platform: n.context.platform,
                        is_container: n.context.is_container,
                        ..o.context
                    },
                    ..o
                })
                &&& *final(self) == (DiagnosticsComponent { data: final(self).data, ..*old(self) })
            },
    {
        match &mut self.data {
            Some(d) => {
                let container = String::from_str("container");
                d.context.is_container = platform == container;
                d.context.platform = platform;
            },
            None => {},
        }
    }

    /// Records the node's CPU count (at least one).
    pub fn set_cpu_count(&mut self, count: u32)
        ensures
            old(self).data is None ==> *final(self) == *old(self),
            old(self).data is Some ==> {
                let (o, n) = (old(self).data->0, final(self).data->0);
                &&& final(self).data is Some
                &&& n == (DiagnosticsData {
                    context: DiagnosticContext {
                        cpu_count: if count == 0 { 1 } else { count },
                        ..o.context
                    },
                    ..o
                })
                &&& *final(self) == (DiagnosticsComponent { data: final(self).data, ..*old(self) })
            },
    {
        match &mut self.data {
            Some(d) => {
                d.context.cpu_count = if count == 0 { 1 } else { count };
            },
            None => {},
        }
    }

    /// Runs network-plugin detection into the context (see
    /// `cni::detect_cni`): the detected plugin, its pods when the management
    /// API showed them, and the note on why that API was unavailable.
    pub fn apply_detection(
        &mut self,
        listing: &Result<Vec<PodRecord>, K8sError>,
        kubelet_logs: &Option<Result<String, String>>,
    )
        ensures
            old(self).data is None ==> *final(self) == *old(self),
            old(self).data is Some ==> {
                let (o, n) = (old(self).data->0, final(self).data->0);
                &&& final(self).data is Some
                &&& listing_decides(*listing) ==> {
                    &&& n.context.cni_type == listed_plugin(listing->Ok_0@)
                    &&& n.context.cni_info is Some
                    &&& plugin_pods_of(n.context.cni_info->0.pods@, listing->Ok_0@)
                }
                &&& !listing_decides(*listing) ==> n.context.cni_type == fallback_plugin(
                    *kubelet_logs,
                ) && n.context.cni_info is None
                &&& listing is Err ==> n.context.k8s_error is Some && n.context.k8s_error->0@
                    == k8s_error_text(listing->Err_0)
                &&& listing is Ok ==> n.context.k8s_error is None
                &&& n == (DiagnosticsData {
                    context: DiagnosticContext {
                        cni_type: n.context.cni_type,
                        cni_info: n.context.cni_info,
                        k8s_error: n.context.k8s_error,
                        ..o.context
                    },
                    ..o
                })
                &&& *final(self) == (DiagnosticsComponent { data: final(self).data, ..*old(self) })
            },
    {
        match &mut self.data {
            Some(d) => {
                let (cni_type, cni_info) = detect_cni(&mut d.context, listing, kubelet_logs);
                d.context.cni_type = cni_type;
                d.context.cni_info = cni_info;
            },
            None => {},
        }
    }

    /// Records cluster-wide pod health.
    pub fn set_pod_health(&mut self, health: PodHealthInfo)
        ensures
            old(self).data is None ==> *final(self) == *old(self),
            old(self).data is Some ==> {
                let (o, n) = (old(self).data->0, final(self).data->0);
                &&& final(self).data is Some
                &&& n == (DiagnosticsData {
                    context: DiagnosticContext { pod_health: Some(health), ..o.context },
                    ..o
                })
                &&& *final(self) == (DiagnosticsComponent { data: final(self).data, ..*old(self) })
            },
    {
        match &mut self.data {
            Some(d) => {
                d.context.pod_health = Some(health);
            },
            None => {},
        }
    }

    /// Records the detected add-ons.
    pub fn set_detected_addons(&mut self, addons: DetectedAddons)
        ensures
            old(self).data is None ==> *final(self) == *old(self),
            old(self).data is Some ==> {
                let (o, n) = (old(self).data->0, final(self).data->0);
                &&& final(self).data is Some
                &&& n == (DiagnosticsData { detected_addons: addons, ..o })
                &&& *final(self) == (DiagnosticsComponent { data: final(self).data, ..*old(self) })
            },
    {
        match &mut self.data {
            Some(d) => {
                d.detected_addons = addons;
            },
            None => {},
        }
    }

    /// Ends a refresh. Without results (the bounded run timed out) the
    /// session reports a timeout and keeps its data. With results all five
    /// lists are replaced at once, the selected category stays, the selected
    /// check is clamped into the new bounds of that category, and the
    /// session is loaded; nothing else changes.
    pub fn finish_refresh(&mut self, result: Option<CheckLists>)
        requires
            old(self).wf(),
        ensures
            final(self).wf(),
            result is None ==> final(self).error is Some && final(self).error->0@
                == "Timeout fetching diagnostics"@ && *final(self) == (DiagnosticsComponent {
                error: final(self).error,
                loading: false,
                ..*old(self)
            }),
            result is Some ==> {
                let l = result->0;
                &&& !final(self).loading && final(self).loaded && final(self).error is None
                &&& old(self).data is Some ==> final(self).data == Some(
                    DiagnosticsData {
                        system_checks: l.system,
                        kubernetes_checks: l.kubernetes,
                        service_checks: l.service,
                        cni_checks: l.cni,
                        addon_checks: l.addon,
                        ..old(self).data->0
                    },
                )
                &&& old(self).data is None ==> final(self).data is None
                &&& final(self).selected_check == if final(self).current_list().len() == 0 {
                    0
                } else if old(self).selected_check >= final(self).current_list().len() {
                    (final(self).current_list().len() - 1) as usize
                } else {
                    old(self).selected_check
                }
                &&& *final(self) == (DiagnosticsComponent {
                    data: final(self).data,
                    selected_check: final(self).selected_check,
                    loading: false,
                    loaded: true,
                    error: None,
                    ..*old(self)
                })
            },
    {
        match result {
            None => {
                self.set_error(String::from_str("Timeout fetching diagnostics"));
            },
            Some(lists) => {
                match &mut self.data {
                    Some(d) => {
                        d.system_checks = lists.system;
                        d.kubernetes_checks = lists.kubernetes;
                        d.service_checks = lists.service;
                        d.cni_checks = lists.cni;
                        d.addon_checks = lists.addon;
                    },
                    None => {},
                }
                self.ensure_valid_selection();
                self.loading = false;
                self.loaded = true;
                self.error = None;
            },
        }
    }

    /// Whether an automatic refresh is due, `elapsed_secs` after the last.
    pub fn should_auto_refresh(&self, elapsed_secs: u64) -> (r: bool)
        ensures
            r == (self.auto_refresh && !self.loading && elapsed_secs >= AUTO_REFRESH_INTERVAL_SECS),
    {
        self.auto_refresh && !self.loading && elapsed_secs >= AUTO_REFRESH_INTERVAL_SECS
    }

    /// Switches a group between interleaved and by-node views and selects
    /// the first check; a single-node session ignores it.
    pub fn toggle_view_mode(&mut self)
        requires
            old(self).wf(),
        ensures
            final(self).wf(),
            !old(self).is_group_view ==> *final(self) == *old(self),
            old(self).is_group_view ==> *final(self) == (DiagnosticsComponent {
                group_view_mode: if old(self).group_view_mode == GroupViewMode::Interleaved {
                    GroupViewMode::ByNode
                } else {
                    GroupViewMode::Interleaved
                },
                selected_check: 0,
                ..*old(self)
            }),
    {
        if self.is_group_view {
            self.group_view_mode = match self.group_view_mode {
                GroupViewMode::Interleaved => GroupViewMode::ByNode,
                GroupViewMode::ByNode => GroupViewMode::Interleaved,
            };
            self.selected_check = 0;
        }
    }

    /// In a group's by-node view, moves to the previous node tab (stopping
    /// at the first) and selects the first check.
    pub fn prev_node_tab(&mut self)
        requires
            old(self).wf(),
        ensures
            final(self).wf(),
            old(self).is_group_view && old(self).group_view_mode == GroupViewMode::ByNode
                && old(self).selected_node_tab > 0 ==> *final(self) == (DiagnosticsComponent {
                selected_node_tab: (old(self).selected_node_tab - 1) as usize,
                selected_check: 0,
                ..*old(self)
            }),
            !(old(self).is_group_view && old(self).group_view_mode == GroupViewMode::ByNode
                && old(self).selected_node_tab > 0) ==> *final(self) == *old(self),
    {
        if self.is_group_view && self.group_view_mode == GroupViewMode::ByNode
            && self.selected_node_tab > 0 {
            self.selected_node_tab = self.selected_node_tab - 1;
            self.selected_check = 0;
        }
    }

    /// In a group's by-node view, moves to the next node tab (stopping at
    /// the last) and selects the first check.
    pub fn next_node_tab(&mut self)
        requires
            old(self).wf(),
        ensures
            final(self).wf(),
            old(self).is_group_view && old(self).group_view_mode == GroupViewMode::ByNode
                && old(self).selected_node_tab + 1 < old(self).nodes@.len() ==> *final(self) == (
            DiagnosticsComponent {
                selected_node_tab: (old(self).selected_node_tab + 1) as usize,
                selected_check: 0,
                ..*old(self)
            }),
            !(old(self).is_group_view && old(self).group_view_mode == GroupViewMode::ByNode
                && old(self).selected_node_tab + 1 < old(self).nodes@.len()) ==> *final(self)
                == *old(self),
    {
        if self.is_group_view && self.group_view_mode == GroupViewMode::ByNode
            && self.nodes.len() > 0 && self.selected_node_tab < self.nodes.len() - 1 {
            self.selected_node_tab = self.selected_node_tab + 1;
            self.selected_check = 0;
        }
    }

    /// Title of category `idx`; the network-plugin category names the
    /// detected plugin.
    pub fn category_title(&self, idx: usize) -> (r: &'static str)
        ensures
            r@ == category_title_text(
                idx as int,
                match self.data {
                    Some(d) => d.context.cni_type,
                    None => CniType::Unknown,
                },
            ),
    {
        if idx == 0 {
            "System Health"
        } else if idx == 1 {
            "Kubernetes Components"
        } else if idx == 2 {
            let cni = match &self.data {
                Some(d) => d.context.cni_type,
                None => CniType::Unknown,
            };
            match cni {
                CniType::Flannel => "CNI (Flannel)",
                CniType::Cilium => "CNI (Cilium)",
                CniType::Calico => "CNI (Calico)",
                _ => "CNI",
            }
        } else if idx == 3 {
            "Services"
        } else if idx == 4 {
            "Addons"
        } else {
            "Unknown"
        }
    }
}

/// Title of a category.
pub open spec fn category_title_text(idx: int, cni: CniType) -> Seq<char> {
    if idx == 0 {
        "System Health"@
    } else if idx == 1 {
        "Kubernetes Components"@
    } else if idx == 2 {
        match cni {
            CniType::Flannel => "CNI (Flannel)"@,
            CniType::Cilium => "CNI (Cilium)"@,
            CniType::Calico => "CNI (Calico)"@,
            _ => "CNI"@,
        }
    } else if idx == 3 {
        "Services"@
    } else if idx == 4 {
        "Addons"@
    } else {
        "Unknown"@
    }
}

} // verus!
