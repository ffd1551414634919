//! Network-plugin detection from the management API's pod listing, and the
//! health of the plugin's pods.
use vstd::prelude::*;

use crate::text::{digits, lower_of, seq_starts_with, signed_decimal, starts_with, to_lowercase};
use crate::text::{decimal, signed};
use crate::types::CniType;

verus! {

/// Why the management API could not be used.
#[derive(Clone, Debug)]
pub enum K8sError {
    KubeconfigFetch(String),
    KubeconfigParse(String),
    ClientCreate(String),
    ApiError(String),
}

impl K8sError {
    /// Text shown to the operator.
    pub fn message(&self) -> (r: String)
        ensures
            r@ == k8s_error_text(*self),
    {
        let (prefix, detail) = match self {
            K8sError::KubeconfigFetch(d) => ("Failed to get kubeconfig from Talos: ", d),
            K8sError::KubeconfigParse(d) => ("Failed to parse kubeconfig: ", d),
            K8sError::ClientCreate(d) => ("Failed to create K8s client: ", d),
            K8sError::ApiError(d) => ("K8s API error: ", d),
        };
        let mut s = String::from_str(prefix);
        s.append(detail.as_str());
        s
    }
}

/// The operator-facing text of a management-API error.
pub open spec fn k8s_error_text(e: K8sError) -> Seq<char> {
    match e {
        K8sError::KubeconfigFetch(d) => "Failed to get kubeconfig from Talos: "@ + d@,
        K8sError::KubeconfigParse(d) => "Failed to parse kubeconfig: "@ + d@,
        K8sError::ClientCreate(d) => "Failed to create K8s client: "@ + d@,
        K8sError::ApiError(d) => "K8s API error: "@ + d@,
    }
}

/// One condition of a pod's status.
#[derive(Clone, Debug)]
pub struct PodCondition {
    /// Condition type, such as "Ready".
    pub kind: String,
    /// "True", "False" or "Unknown".
    pub status: String,
}

/// A pod as the management API lists it, reduced to the fields detection reads.
#[derive(Clone, Debug)]
pub struct PodRecord {
    pub name: Option<String>,
    pub phase: Option<String>,
    pub conditions: Vec<PodCondition>,
    /// Restart count of each container.
    pub container_restarts: Vec<i32>,
}

/// A network-plugin pod.
#[derive(Clone, Debug)]
pub struct CniPodInfo {
    pub name: String,
    /// Pod phase (Running, Pending, ...).
    pub phase: String,
    pub ready: bool,
    pub restart_count: i32,
}

/// What the management API shows of the network plugin.
#[derive(Clone, Debug)]
pub struct CniInfo {
    pub cni_type: CniType,
    pub pods: Vec<CniPodInfo>,
}

/// A pod is healthy when it is running and ready.
pub open spec fn pod_healthy(p: CniPodInfo) -> bool {
    p.phase@ == "Running"@ && p.ready
}

/// Number of healthy pods.
pub open spec fn healthy_count(pods: Seq<CniPodInfo>) -> nat
    decreases pods.len(),
{
    if pods.len() == 0 {
        0
    } else {
        healthy_count(pods.drop_last()) + if pod_healthy(pods.last()) { 1nat } else { 0nat }
    }
}

/// Sum of the restart counts.
pub open spec fn restart_total(pods: Seq<CniPodInfo>) -> int
    decreases pods.len(),
{
    if pods.len() == 0 {
        0
    } else {
        restart_total(pods.drop_last()) + pods.last().restart_count
    }
}

/// Whether every known plugin pod is healthy; no pods counts as unhealthy.
pub open spec fn all_pods_healthy(pods: Seq<CniPodInfo>) -> bool {
    pods.len() > 0 && forall|i: int| 0 <= i < pods.len() ==> #[trigger] pod_healthy(pods[i])
}

/// The summary line for a set of plugin pods.
pub open spec fn pod_summary_text(pods: Seq<CniPodInfo>) -> Seq<char> {
    if pods.len() == 0 {
        "No CNI pods found"@
    } else {
        digits(healthy_count(pods), 10) + "/"@ + digits(pods.len(), 10) + " pods healthy ("@
            + signed_decimal(restart_total(pods)) + " restarts)"@
    }
}

proof fn lemma_healthy_count_bound(pods: Seq<CniPodInfo>)
    ensures
        healthy_count(pods) <= pods.len(),
    decreases pods.len(),
{
    if pods.len() > 0 {
        lemma_healthy_count_bound(pods.drop_last());
    }
}

proof fn lemma_restart_bound(pods: Seq<CniPodInfo>)
    ensures
        -0x8000_0000 * pods.len() <= restart_total(pods) <= 0x8000_0000 * pods.len(),
    decreases pods.len(),
{
    if pods.len() > 0 {
        lemma_restart_bound(pods.drop_last());
    }
}

fn is_running(p: &CniPodInfo) -> (r: bool)
    ensures
        r == pod_healthy(*p),
{
    let running = String::from_str("Running");
    p.phase == running && p.ready
}

/// Whether all plugin pods are running and ready (false when there are none).
pub fn are_cni_pods_healthy(info: &CniInfo) -> (r: bool)
    ensures
        r == all_pods_healthy(info.pods@),
{
    if info.pods.len() == 0 {
        return false;
    }
    let mut i: usize = 0;
    while i < info.pods.len()
        invariant
            0 <= i <= info.pods@.len(),
            forall|j: int| 0 <= j < i ==> #[trigger] pod_healthy(info.pods@[j]),
        decreases info.pods@.len() - i,
    {
        if !is_running(&info.pods[i]) {
            return false;
        }
        i = i + 1;
    }
    true
}

/// Summary of plugin pod health: "<healthy>/<total> pods healthy (<N> restarts)"
/// with N the restart total, or "No CNI pods found".
pub fn cni_pod_health_summary(info: &CniInfo) -> (r: String)
    ensures
        r@ == pod_summary_text(info.pods@),
{
    if info.pods.len() == 0 {
        return String::from_str("No CNI pods found");
    }
    let ghost pods = info.pods@;
    let total = info.pods.len();
    let mut healthy: usize = 0;
    let mut restarts: i128 = 0;
    let mut i: usize = 0;
    while i < total
        invariant
            total == pods.len(),
            pods == info.pods@,
            0 <= i <= total,
            healthy == healthy_count(pods.subrange(0, i as int)),
            restarts == restart_total(pods.subrange(0, i as int)),
        decreases total - i,
    {
        proof {
            let s = pods.subrange(0, i + 1);
            assert(s.drop_last() =~= pods.subrange(0, i as int));
            lemma_healthy_count_bound(pods.subrange(0, i as int));
            lemma_restart_bound(pods.subrange(0, i as int));
            assert(0x8000_0000 * i <= 0x8000_0000 * 0x1_0000_0000_0000_0000) by (nonlinear_arith)
                requires
                    i <= 0x1_0000_0000_0000_0000,
            ;
        }
        if is_running(&info.pods[i]) {
            healthy = healthy + 1;
        }
        restarts = restarts + info.pods[i].restart_count as i128;
        i = i + 1;
    }
    proof {
        assert(pods.subrange(0, total as int) =~= pods);
    }
    let mut s = decimal(healthy as u64);
    s.append("/");
    let t = decimal(total as u64);
    s.append(t.as_str());
    s.append(" pods healthy (");
    let rs = signed(restarts);
    s.append(rs.as_str());
    s.append(" restarts)");
    s
}

impl CniInfo {
    /// Whether all plugin pods are healthy.
    pub fn are_pods_healthy(&self) -> (r: bool)
        ensures
            r == all_pods_healthy(self.pods@),
    {
        are_cni_pods_healthy(self)
    }

    /// Summary line of plugin pod health.
    pub fn pod_health_summary(&self) -> (r: String)
        ensures
            r@ == pod_summary_text(self.pods@),
    {
        cni_pod_health_summary(self)
    }
}

/// The plugin a lower-cased pod name belongs to, by its prefix; `Unknown`
/// when it belongs to none.
pub open spec fn plugin_of_name(lower: Seq<char>) -> CniType {
    if seq_starts_with(lower, "kube-flannel"@) || seq_starts_with(lower, "flannel"@) {
        CniType::Flannel
    } else if seq_starts_with(lower, "cilium"@) {
        CniType::Cilium
    } else if seq_starts_with(lower, "calico"@) {
        CniType::Calico
    } else {
        CniType::Unknown
    }
}

/// The name of a listed pod, empty when it has none.
pub open spec fn pod_name(p: PodRecord) -> Seq<char> {
    match p.name {
        Some(n) => n@,
        None => Seq::empty(),
    }
}

/// The plugin a listed pod belongs to.
pub open spec fn pod_plugin(p: PodRecord) -> CniType {
    plugin_of_name(lower_of(pod_name(p)))
}

/// A pod is ready when one of its conditions is `Ready` with status `True`.
pub open spec fn pod_ready(p: PodRecord) -> bool {
    exists|i: int|
        0 <= i < p.conditions@.len() && #[trigger] p.conditions@[i].kind@ == "Ready"@
            && p.conditions@[i].status@ == "True"@
}

/// Sum of a pod's container restart counts.
pub open spec fn restart_sum(rs: Seq<i32>) -> int
    decreases rs.len(),
{
    if rs.len() == 0 {
        0
    } else {
        restart_sum(rs.drop_last()) + rs.last()
    }
}

/// `n` held within the range of `i32`.
pub open spec fn clamp_i32(n: int) -> int {
    if n > i32::MAX {
        i32::MAX as int
    } else if n < i32::MIN {
        i32::MIN as int
    } else {
        n
    }
}

/// `info` is what a listed pod turns into.
pub open spec fn pod_info_of(info: CniPodInfo, p: PodRecord) -> bool {
    &&& info.name@ == pod_name(p)
    &&& info.phase@ == match p.phase {
        Some(ph) => ph@,
        None => "Unknown"@,
    }
    &&& info.ready == pod_ready(p)
    &&& info.restart_count == clamp_i32(restart_sum(p.container_restarts@))
}

/// `out` holds, in order, what each plugin pod of `pods` turns into.
pub open spec fn plugin_pods_of(out: Seq<CniPodInfo>, pods: Seq<PodRecord>) -> bool
    decreases pods.len(),
{
    if pods.len() == 0 {
        out.len() == 0
    } else if pod_plugin(pods.last()) != CniType::Unknown {
        out.len() > 0 && plugin_pods_of(out.drop_last(), pods.drop_last()) && pod_info_of(
            out.last(),
            pods.last(),
        )
    } else {
        plugin_pods_of(out, pods.drop_last())
    }
}

/// The plugin of the last plugin pod in the listing; `Unknown` when none is.
pub open spec fn listed_plugin(pods: Seq<PodRecord>) -> CniType
    decreases pods.len(),
{
    if pods.len() == 0 {
        CniType::Unknown
    } else if pod_plugin(pods.last()) != CniType::Unknown {
        pod_plugin(pods.last())
    } else {
        listed_plugin(pods.drop_last())
    }
}

/// The plugin a pod name belongs to.
fn classify_pod_name(name: &str) -> (r: CniType)
    ensures
        r == plugin_of_name(lower_of(name@)),
{
    let lower = to_lowercase(name);
    let l = lower.as_str();
    if starts_with(l, "kube-flannel") || starts_with(l, "flannel") {
        CniType::Flannel
    } else if starts_with(l, "cilium") {
        CniType::Cilium
    } else if starts_with(l, "calico") {
        CniType::Calico
    } else {
        CniType::Unknown
    }
}

fn is_ready(p: &PodRecord) -> (r: bool)
    ensures
        r == pod_ready(*p),
{
    let ready = String::from_str("Ready");
    let truth = String::from_str("True");
    let mut i: usize = 0;
    while i < p.conditions.len()
        invariant
            0 <= i <= p.conditions@.len(),
            ready@ == "Ready"@,
            truth@ == "True"@,
            forall|j: int|
                0 <= j < i ==> !(#[trigger] p.conditions@[j].kind@ == "Ready"@
                    && p.conditions@[j].status@ == "True"@),
        decreases p.conditions@.len() - i,
    {
        if p.conditions[i].kind == ready && p.conditions[i].status == truth {
            return true;
        }
        i = i + 1;
    }
    false
}

fn total_restarts(rs: &Vec<i32>) -> (r: i32)
    ensures
        r == clamp_i32(restart_sum(rs@)),
{
    let mut sum: i128 = 0;
    let mut i: usize = 0;
    while i < rs.len()
        invariant
            0 <= i <= rs@.len(),
            sum == restart_sum(rs@.subrange(0, i as int)),
            -0x8000_0000 * i <= sum <= 0x8000_0000 * i,
        decreases rs@.len() - i,
    {
        proof {
            assert(rs@.subrange(0, i + 1).drop_last() =~= rs@.subrange(0, i as int));
            assert(0x8000_0000 * i <= 0x8000_0000 * 0x1_0000_0000_0000_0000) by (nonlinear_arith)
                requires
                    i <= 0x1_0000_0000_0000_0000,
            ;
        }
        sum = sum + rs[i] as i128;
        i = i + 1;
    }
    assert(rs@.subrange(0, rs@.len() as int) =~= rs@);
    if sum > i32::MAX as i128 {
        i32::MAX
    } else if sum < i32::MIN as i128 {
        i32::MIN
    } else {
        sum as i32
    }
}

/// Detects the network plugin from the pods listed in the system namespace:
/// each pod whose lower-cased name starts with a plugin's prefix is kept,
/// and the plugin of the last such pod is reported.
pub fn detect_cni_from_k8s(pods: &Vec<PodRecord>) -> (r: CniInfo)
    ensures
        r.cni_type == listed_plugin(pods@),
        plugin_pods_of(r.pods@, pods@),
{
    let mut info = CniInfo { cni_type: CniType::Unknown, pods: Vec::new() };
    let mut i: usize = 0;
    while i < pods.len()
        invariant
            0 <= i <= pods@.len(),
            info.cni_type == listed_plugin(pods@.subrange(0, i as int)),
            plugin_pods_of(info.pods@, pods@.subrange(0, i as int)),
        decreases pods@.len() - i,
    {
        let pod = &pods[i];
        let ghost pre = pods@.subrange(0, i as int);
        let ghost next = pods@.subrange(0, i + 1);
        assert(next.drop_last() =~= pre);
        assert(next.last() == *pod);
        let name = match &pod.name {
            Some(n) => n.clone(),
            None => String::new(),
        };
        assert(name@ == pod_name(*pod));
        let kind = classify_pod_name(name.as_str());
        if kind != CniType::Unknown {
            info.cni_type = kind;
            let phase = match &pod.phase {
                Some(ph) => ph.clone(),
                None => String::from_str("Unknown"),
            };
            let entry = CniPodInfo {
                name,
                phase,
                ready: is_ready(pod),
                restart_count: total_restarts(&pod.container_restarts),
            };
            let ghost old_pods = info.pods@;
            info.pods.push(entry);
            assert(info.pods@.drop_last() =~= old_pods);
        }
        i = i + 1;
    }
    assert(pods@.subrange(0, pods@.len() as int) =~= pods@);
    info
}

} // verus!
