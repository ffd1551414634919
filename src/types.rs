//! Check primitives: the outcome of one check, the fix it may offer, and the
//! per-node context that the detectors and check runners fill in.
use vstd::prelude::*;

use crate::k8s::CniInfo;

verus! {

/// Outcome of one health check. `Unknown` means the data source could not be
/// reached, which is not the same as a definite failure.
#[derive(Clone, Copy, Debug, PartialEq, Eq, Structural)]
pub enum CheckStatus {
    Pass,
    Warn,
    Fail,
    Unknown,
}

/// The closed set of corrective actions a check can propose.
#[derive(Clone, Debug)]
pub enum FixAction {
    /// Load a kernel module through a machine-config patch (applied with a reboot).
    AddKernelModule(String),
    /// Apply a machine-config patch.
    ApplyConfigPatch { yaml: String, requires_reboot: bool },
    /// Restart a system service by id.
    RestartService(String),
    /// Nothing to apply; the text only explains the problem.
    ShowDetails(String),
    /// Install the Cilium network plugin.
    InstallCilium,
    /// A command the operator runs on their own host.
    HostCommand { command: String, disruptive: bool },
}

impl FixAction {
    pub open spec fn spec_requires_reboot(&self) -> bool {
        match self {
            FixAction::AddKernelModule(_) => true,
            FixAction::ApplyConfigPatch { requires_reboot, .. } => *requires_reboot,
            _ => false,
        }
    }

    pub open spec fn spec_is_host_command(&self) -> bool {
        self is HostCommand
    }

    /// Whether applying the action reboots the node.
    pub fn requires_reboot(&self) -> (r: bool)
        ensures
            r == self.spec_requires_reboot(),
    {
        match self {
            FixAction::AddKernelModule(_) => true,
            FixAction::ApplyConfigPatch { requires_reboot, .. } => *requires_reboot,
            _ => false,
        }
    }

    /// Whether the action is a command for the operator's host rather than
    /// something applied to the node.
    pub fn is_host_command(&self) -> (r: bool)
        ensures
            r == self.spec_is_host_command(),
    {
        match self {
            FixAction::HostCommand { .. } => true,
            _ => false,
        }
    }

    /// A copy equal to `self`.
    pub fn duplicate(&self) -> (r: FixAction)
        ensures
            r == *self,
    {
        match self {
            FixAction::AddKernelModule(m) => FixAction::AddKernelModule(m.clone()),
            FixAction::ApplyConfigPatch { yaml, requires_reboot } => FixAction::ApplyConfigPatch {
                yaml: yaml.clone(),
                requires_reboot: *requires_reboot,
            },
            FixAction::RestartService(s) => FixAction::RestartService(s.clone()),
            FixAction::ShowDetails(t) => FixAction::ShowDetails(t.clone()),
            FixAction::InstallCilium => FixAction::InstallCilium,
            FixAction::HostCommand { command, disruptive } => FixAction::HostCommand {
                command: command.clone(),
                disruptive: *disruptive,
            },
        }
    }
}

/// A proposed fix: a description for the operator and the action itself.
#[derive(Clone, Debug)]
pub struct DiagnosticFix {
    pub description: String,
    pub action: FixAction,
}

impl DiagnosticFix {
    /// A copy equal to `self`.
    pub fn duplicate(&self) -> (r: DiagnosticFix)
        ensures
            r == *self,
    {
        DiagnosticFix { description: self.description.clone(), action: self.action.duplicate() }
    }
}

/// A copy of an optional text equal to it.
pub fn copy_text(t: &Option<String>) -> (r: Option<String>)
    ensures
        r == *t,
{
    match t {
        Some(s) => Some(s.clone()),
        None => None,
    }
}

/// One evaluated health fact.
#[derive(Clone, Debug)]
pub struct DiagnosticCheck {
    /// Stable key, kept across refreshes.
    pub id: String,
    /// Display name.
    pub name: String,
    /// One-line result.
    pub message: String,
    pub status: CheckStatus,
    pub fix: Option<DiagnosticFix>,
    /// Free-text explanation, for checks without a fix.
    pub details: Option<String>,
}

impl DiagnosticCheck {
    fn make(id: &str, name: &str, message: &str, status: CheckStatus, fix: Option<DiagnosticFix>) -> (r: DiagnosticCheck)
        ensures
            r.id@ == id@,
            r.name@ == name@,
            r.message@ == message@,
            r.status == status,
            r.fix == fix,
            r.details.is_none(),
    {
        DiagnosticCheck {
            id: String::from_str(id),
            name: String::from_str(name),
            message: String::from_str(message),
            status,
            fix,
            details: None,
        }
    }

    /// A passing check.
    pub fn pass(id: &str, name: &str, message: &str) -> (r: DiagnosticCheck)
        ensures
            r.id@ == id@,
            r.name@ == name@,
            r.message@ == message@,
            r.status == CheckStatus::Pass,
            r.fix.is_none(),
            r.details.is_none(),
    {
        Self::make(id, name, message, CheckStatus::Pass, None)
    }

    /// A warning.
    pub fn warn(id: &str, name: &str, message: &str) -> (r: DiagnosticCheck)
        ensures
            r.id@ == id@,
            r.name@ == name@,
            r.message@ == message@,
            r.status == CheckStatus::Warn,
            r.fix.is_none(),
            r.details.is_none(),
    {
        Self::make(id, name, message, CheckStatus::Warn, None)
    }

    /// A failure, with the fix that remedies it when there is one.
    pub fn fail(id: &str, name: &str, message: &str, fix: Option<DiagnosticFix>) -> (r: DiagnosticCheck)
        ensures
            r.id@ == id@,
            r.name@ == name@,
            r.message@ == message@,
            r.status == CheckStatus::Fail,
            r.fix == fix,
            r.details.is_none(),
    {
        Self::make(id, name, message, CheckStatus::Fail, fix)
    }

    /// A check whose data source could not be reached.
    pub fn unknown(id: &str, name: &str) -> (r: DiagnosticCheck)
        ensures
            r.id@ == id@,
            r.name@ == name@,
            r.message@ == unknown_message(),
            r.status == CheckStatus::Unknown,
            r.fix.is_none(),
            r.details.is_none(),
    {
        proof {
            reveal_strlit("Unable to check");
            assert("Unable to check"@ =~= unknown_message());
        }
        Self::make(id, name, "Unable to check", CheckStatus::Unknown, None)
    }

    /// The same check with `details` attached.
    pub fn with_details(self, details: &str) -> (r: DiagnosticCheck)
        ensures
            r.id == self.id,
            r.name == self.name,
            r.message == self.message,
            r.status == self.status,
            r.fix == self.fix,
            r.details is Some,
            r.details->0@ == details@,
    {
        DiagnosticCheck { details: Some(String::from_str(details)), ..self }
    }

    /// A copy equal to `self`.
    pub fn duplicate(&self) -> (r: DiagnosticCheck)
        ensures
            r == *self,
    {
        let fix = match &self.fix {
            Some(f) => Some(f.duplicate()),
            None => None,
        };
        DiagnosticCheck {
            id: self.id.clone(),
            name: self.name.clone(),
            message: self.message.clone(),
            status: self.status,
            fix,
            details: copy_text(&self.details),
        }
    }
}

/// Mathematical model of a fix action.
pub enum FixActionView {
    AddKernelModule(Seq<char>),
    ApplyConfigPatch { yaml: Seq<char>, requires_reboot: bool },
    RestartService(Seq<char>),
    ShowDetails(Seq<char>),
    InstallCilium,
    HostCommand { command: Seq<char>, disruptive: bool },
}

/// Mathematical model of a fix.
pub struct FixView {
    pub description: Seq<char>,
    pub action: FixActionView,
}

/// Mathematical model of a check.
pub struct CheckView {
    pub id: Seq<char>,
    pub name: Seq<char>,
    pub message: Seq<char>,
    pub status: CheckStatus,
    pub fix: Option<FixView>,
    pub details: Option<Seq<char>>,
}

impl View for FixAction {
    type V = FixActionView;

    open spec fn view(&self) -> FixActionView {
        match self {
            FixAction::AddKernelModule(m) => FixActionView::AddKernelModule(m@),
            FixAction::ApplyConfigPatch { yaml, requires_reboot } => FixActionView::ApplyConfigPatch {
                yaml: yaml@,
                requires_reboot: *requires_reboot,
            },
            FixAction::RestartService(s) => FixActionView::RestartService(s@),
            FixAction::ShowDetails(t) => FixActionView::ShowDetails(t@),
            FixAction::InstallCilium => FixActionView::InstallCilium,
            FixAction::HostCommand { command, disruptive } => FixActionView::HostCommand {
                command: command@,
                disruptive: *disruptive,
            },
        }
    }
}

impl View for DiagnosticFix {
    type V = FixView;

    open spec fn view(&self) -> FixView {
        FixView { description: self.description@, action: self.action@ }
    }
}

impl View for DiagnosticCheck {
    type V = CheckView;

    open spec fn view(&self) -> CheckView {
        CheckView {
            id: self.id@,
            name: self.name@,
            message: self.message@,
            status: self.status,
            fix: match self.fix {
                Some(f) => Some(f@),
                None => None,
            },
            details: match self.details {
                Some(d) => Some(d@),
                None => None,
            },
        }
    }
}

/// The models of a sequence of checks.
pub open spec fn check_views(cs: Seq<DiagnosticCheck>) -> Seq<CheckView> {
    cs.map_values(|c: DiagnosticCheck| c@)
}

/// Message of a check whose source could not be reached.
pub open spec fn unknown_message() -> Seq<char> {
    seq!['U', 'n', 'a', 'b', 'l', 'e', ' ', 't', 'o', ' ', 'c', 'h', 'e', 'c', 'k']
}

/// The network plugin a cluster runs.
#[derive(Clone, Copy, Debug, PartialEq, Eq, Structural)]
pub enum CniType {
    Flannel,
    Cilium,
    Calico,
    Unknown,
    NoPlugin,
}

/// A pod that is crash-looping or cannot pull its image.
#[derive(Clone, Debug)]
pub struct UnhealthyPodInfo {
    pub name: String,
    pub namespace: String,
    pub state: String,
    pub restart_count: i32,
}

/// Cluster-wide pod health gathered from the management API.
#[derive(Clone, Debug)]
pub struct PodHealthInfo {
    pub crashing: Vec<UnhealthyPodInfo>,
    pub image_pull_errors: Vec<UnhealthyPodInfo>,
    pub total_pods: usize,
}

/// Per-node scratchpad filled in step by step during a refresh.
#[derive(Clone, Debug)]
pub struct DiagnosticContext {
    pub hostname: String,
    pub node_endpoint: Option<String>,
    /// Role of the node, such as "controlplane" or "worker".
    pub node_role: String,
    /// Platform identifier reported by the node.
    pub platform: String,
    /// Whether the node runs inside a container.
    pub is_container: bool,
    /// Number of CPUs, at least one.
    pub cpu_count: u32,
    pub cni_type: CniType,
    pub cni_info: Option<CniInfo>,
    pub pod_health: Option<PodHealthInfo>,
    /// Why the management-API detector was unavailable, when it was.
    pub k8s_error: Option<String>,
}

impl DiagnosticContext {
    /// An empty context: nothing detected yet.
    pub fn new() -> (r: DiagnosticContext)
        ensures
            r.hostname@.len() == 0,
            r.node_endpoint.is_none(),
            r.node_role@.len() == 0,
            r.platform@.len() == 0,
            !r.is_container,
            r.cpu_count == 1,
            r.cni_type == CniType::Unknown,
            r.cni_info.is_none(),
            r.pod_health.is_none(),
            r.k8s_error.is_none(),
    {
        DiagnosticContext {
            hostname: String::new(),
            node_endpoint: None,
            node_role: String::new(),
            platform: String::new(),
            is_container: false,
            cpu_count: 1,
            cni_type: CniType::Unknown,
            cni_info: None,
            pod_health: None,
            k8s_error: None,
        }
    }
}

} // verus!
