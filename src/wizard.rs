//! Data of the bootstrap wizard: its steps, the node type being configured,
//! what the flow has gathered, and the fields of the configuration form.
use vstd::prelude::*;

use crate::storage::{DiskInfo, VolumeStatus};
use crate::text::{contains, seq_contains};

verus! {

/// Steps of the bootstrap flow.
#[derive(Clone, Debug)]
pub enum WizardState {
    Connecting,
    SelectDisk,
    ConfigureCluster,
    ConfigReady,
    Applying,
    WaitingReboot,
    ReadyToBootstrap,
    Bootstrapping,
    WaitingHealthy,
    Complete,
    Error(String),
}

/// Number of steps of the flow.
pub const TOTAL_STEPS: usize = 10;

/// The 1-based number of a step (0 for the error state).
pub open spec fn step_of(s: WizardState) -> nat {
    match s {
        WizardState::Connecting => 1,
        WizardState::SelectDisk => 2,
        WizardState::ConfigureCluster => 3,
        WizardState::ConfigReady => 4,
        WizardState::Applying => 5,
        WizardState::WaitingReboot => 6,
        WizardState::ReadyToBootstrap => 7,
        WizardState::Bootstrapping => 8,
        WizardState::WaitingHealthy => 9,
        WizardState::Complete => 10,
        WizardState::Error(_) => 0,
    }
}

/// The title of a step.
pub open spec fn title_of(s: WizardState) -> Seq<char> {
    match s {
        WizardState::Connecting => "Connecting"@,
        WizardState::SelectDisk => "Select Installation Disk"@,
        WizardState::ConfigureCluster => "Configure Cluster"@,
        WizardState::ConfigReady => "Review Configuration"@,
        WizardState::Applying => "Applying Configuration"@,
        WizardState::WaitingReboot => "Waiting for Reboot"@,
        WizardState::ReadyToBootstrap => "Ready to Bootstrap"@,
        WizardState::Bootstrapping => "Bootstrapping"@,
        WizardState::WaitingHealthy => "Waiting for Cluster"@,
        WizardState::Complete => "Complete"@,
        WizardState::Error(_) => "Error"@,
    }
}

impl WizardState {
    /// The 1-based step number for display (0 for the error state).
    pub fn step_number(&self) -> (r: usize)
        ensures
            r == step_of(*self),
    {
        match self {
            WizardState::Connecting => 1,
            WizardState::SelectDisk => 2,
            WizardState::ConfigureCluster => 3,
            WizardState::ConfigReady => 4,
            WizardState::Applying => 5,
            WizardState::WaitingReboot => 6,
            WizardState::ReadyToBootstrap => 7,
            WizardState::Bootstrapping => 8,
            WizardState::WaitingHealthy => 9,
            WizardState::Complete => 10,
            WizardState::Error(_) => 0,
        }
    }

    /// Total number of steps.
    pub fn total_steps() -> (r: usize)
        ensures
            r == TOTAL_STEPS,
    {
        TOTAL_STEPS
    }

    /// The step's title.
    pub fn title(&self) -> (r: &'static str)
        ensures
            r@ == title_of(*self),
    {
        match self {
            WizardState::Connecting => "Connecting",
            WizardState::SelectDisk => "Select Installation Disk",
            WizardState::ConfigureCluster => "Configure Cluster",
            WizardState::ConfigReady => "Review Configuration",
            WizardState::Applying => "Applying Configuration",
            WizardState::WaitingReboot => "Waiting for Reboot",
            WizardState::ReadyToBootstrap => "Ready to Bootstrap",
            WizardState::Bootstrapping => "Bootstrapping",
            WizardState::WaitingHealthy => "Waiting for Cluster",
            WizardState::Complete => "Complete",
            WizardState::Error(_) => "Error",
        }
    }
}

/// Type of node being configured.
#[derive(Clone, Copy, Debug, PartialEq, Eq, Default, Structural)]
pub enum NodeType {
    #[default]
    Controlplane,
    Worker,
}

impl NodeType {
    /// The other node type.
    pub fn toggle(&self) -> (r: NodeType)
        ensures
            r == match *self {
                NodeType::Controlplane => NodeType::Worker,
                NodeType::Worker => NodeType::Controlplane,
            },
    {
        match self {
            NodeType::Controlplane => NodeType::Worker,
            NodeType::Worker => NodeType::Controlplane,
        }
    }

    /// File name of the generated config for this node type.
    pub fn config_filename(&self) -> (r: &'static str)
        ensures
            r@ == match *self {
                NodeType::Controlplane => "controlplane.yaml"@,
                NodeType::Worker => "worker.yaml"@,
            },
    {
        match self {
            NodeType::Controlplane => "controlplane.yaml",
            NodeType::Worker => "worker.yaml",
        }
    }
}

/// What the wizard has gathered so far.
#[derive(Clone, Debug)]
pub struct WizardData {
    pub endpoint: String,
    pub disks: Vec<DiskInfo>,
    pub volumes: Vec<VolumeStatus>,
    pub connected: bool,
    pub selected_disk: Option<DiskInfo>,
    pub cluster_name: String,
    pub k8s_endpoint: String,
    pub node_type: NodeType,
    pub output_dir: String,
    pub context_name: Option<String>,
    pub poll_attempts: u32,
    pub last_poll_error: Option<String>,
    pub spinner_frame: usize,
    pub last_error: Option<String>,
}

/// Number of spinner frames.
pub const SPINNER_LEN: usize = 10;

/// Spinner frame `i`.
pub open spec fn spinner_text(i: nat) -> Seq<char> {
    if i == 0 { "⠋"@ } else if i == 1 { "⠙"@ } else if i == 2 { "⠹"@ } else if i == 3 { "⠸"@ }
    else if i == 4 { "⠼"@ } else if i == 5 { "⠴"@ } else if i == 6 { "⠦"@ } else if i == 7 { "⠧"@ }
    else if i == 8 { "⠇"@ } else { "⠏"@ }
}

/// A disk Talos can be installed on: neither read-only nor a CD-ROM.
pub open spec fn installable(d: DiskInfo) -> bool {
    !d.readonly && !d.cdrom
}

impl WizardData {
    /// Initial data for a node at `endpoint`: cluster "talos-cluster", API
    /// endpoint "https://<endpoint>:6443", control-plane type, output ".".
    pub fn new(endpoint: String) -> (r: WizardData)
        ensures
            r.endpoint@ == endpoint@,
            r.cluster_name@ == "talos-cluster"@,
            r.k8s_endpoint@ == "https://"@ + endpoint@ + ":6443"@,
            r.node_type == NodeType::Controlplane,
            r.output_dir@ == "."@,
            r.disks@.len() == 0 && r.volumes@.len() == 0,
            !r.connected,
            r.selected_disk is None && r.context_name is None,
            r.poll_attempts == 0 && r.last_poll_error is None,
            r.spinner_frame == 0 && r.last_error is None,
    {
        let mut k8s_endpoint = String::from_str("https://");
        k8s_endpoint.append(endpoint.as_str());
        k8s_endpoint.append(":6443");
        WizardData {
            endpoint,
            disks: Vec::new(),
            volumes: Vec::new(),
            connected: false,
            selected_disk: None,
            cluster_name: String::from_str("talos-cluster"),
            k8s_endpoint,
            node_type: NodeType::Controlplane,
            output_dir: String::from_str("."),
            context_name: None,
            poll_attempts: 0,
            last_poll_error: None,
            spinner_frame: 0,
            last_error: None,
        }
    }

    /// The disks Talos can be installed on, in order.
    pub fn installable_disks(&self) -> (r: Vec<&DiskInfo>)
        ensures
            r@.map_values(|d: &DiskInfo| *d) == self.disks@.filter(|d: DiskInfo| installable(d)),
    {
        let mut out: Vec<&DiskInfo> = Vec::new();
        let mut i: usize = 0;
        while i < self.disks.len()
            invariant
                0 <= i <= self.disks@.len(),
                out@.map_values(|d: &DiskInfo| *d) == self.disks@.subrange(0, i as int).filter(
                    |d: DiskInfo| installable(d),
                ),
            decreases self.disks@.len() - i,
        {
            let ghost pre = self.disks@.subrange(0, i as int);
            let ghost next = self.disks@.subrange(0, i + 1);
            assert(next.drop_last() =~= pre);
            reveal(Seq::filter);
            let d = &self.disks[i];
            if !d.readonly && !d.cdrom {
                out.push(d);
            }
            assert(out@.map_values(|d: &DiskInfo| *d) =~= next.filter(|d: DiskInfo| installable(d)));
            i = i + 1;
        }
        assert(self.disks@.subrange(0, self.disks@.len() as int) =~= self.disks@);
        out
    }

    /// The current spinner character.
    pub fn spinner(&self) -> (r: &'static str)
        ensures
            r@ == spinner_text((self.spinner_frame % SPINNER_LEN) as nat),
    {
        let i = self.spinner_frame % SPINNER_LEN;
        if i == 0 { "⠋" } else if i == 1 { "⠙" } else if i == 2 { "⠹" } else if i == 3 { "⠸" }
        else if i == 4 { "⠼" } else if i == 5 { "⠴" } else if i == 6 { "⠦" } else if i == 7 { "⠧" }
        else if i == 8 { "⠇" } else { "⠏" }
    }

    /// Advances the spinner to the next frame.
    pub fn advance_spinner(&mut self)
        ensures
            *final(self) == (WizardData {
                spinner_frame: ((old(self).spinner_frame + 1) % (SPINNER_LEN as int)) as usize,
                ..*old(self)
            }),
    {
        self.spinner_frame = (self.spinner_frame % SPINNER_LEN + 1) % SPINNER_LEN;
    }
}

/// Explanation shown for a polling error: known causes get a plain
/// description, anything else is shown as is, cut to 77 characters plus
/// "..." when longer than 80.
pub open spec fn poll_error_text(e: Seq<char>) -> Seq<char> {
    if seq_contains(e, "certificate signed by unknown authority"@) || seq_contains(e, "x509:"@)
        || seq_contains(e, "tls:"@) {
        "Certificate mismatch - remove old config and regenerate"@
    } else if seq_contains(e, "connection refused"@) {
        "Connection refused - node may not be running"@
    } else if seq_contains(e, "connection error"@) || seq_contains(e, "Unavailable"@) {
        "Node not reachable - waiting for boot..."@
    } else if seq_contains(e, "deadline exceeded"@) || seq_contains(e, "timeout"@) {
        "Connection timeout - node may still be booting"@
    } else if e.len() > 80 {
        e.subrange(0, 77) + "..."@
    } else {
        e
    }
}

/// Describes a polling error for the operator.
pub fn format_poll_error(error: &str) -> (r: String)
    ensures
        r@ == poll_error_text(error@),
{
    if contains(error, "certificate signed by unknown authority") || contains(error, "x509:")
        || contains(error, "tls:") {
        String::from_str("Certificate mismatch - remove old config and regenerate")
    } else if contains(error, "connection refused") {
        String::from_str("Connection refused - node may not be running")
    } else if contains(error, "connection error") || contains(error, "Unavailable") {
        String::from_str("Node not reachable - waiting for boot...")
    } else if contains(error, "deadline exceeded") || contains(error, "timeout") {
        String::from_str("Connection timeout - node may still be booting")
    } else if error.unicode_len() > 80 {
        let mut s = String::from_str(error.substring_char(0, 77));
        s.append("...");
        s
    } else {
        String::from_str(error)
    }
}

/// Fields of the cluster configuration form.
#[derive(Clone, Copy, Debug, PartialEq, Eq, Default, Structural)]
pub enum ConfigField {
    #[default]
    ClusterName,
    K8sEndpoint,
    NodeType,
    OutputDir,
}

impl ConfigField {
    /// The following field, wrapping around.
    pub fn next(&self) -> (r: ConfigField)
        ensures
            r == match *self {
                ConfigField::ClusterName => ConfigField::K8sEndpoint,
                ConfigField::K8sEndpoint => ConfigField::NodeType,
                ConfigField::NodeType => ConfigField::OutputDir,
                ConfigField::OutputDir => ConfigField::ClusterName,
            },
    {
        match self {
            ConfigField::ClusterName => ConfigField::K8sEndpoint,
            ConfigField::K8sEndpoint => ConfigField::NodeType,
            ConfigField::NodeType => ConfigField::OutputDir,
            ConfigField::OutputDir => ConfigField::ClusterName,
        }
    }

    /// The preceding field, wrapping around.
    pub fn prev(&self) -> (r: ConfigField)
        ensures
            r == match *self {
                ConfigField::ClusterName => ConfigField::OutputDir,
                ConfigField::K8sEndpoint => ConfigField::ClusterName,
                ConfigField::NodeType => ConfigField::K8sEndpoint,
                ConfigField::OutputDir => ConfigField::NodeType,
            },
    {
        match self {
            ConfigField::ClusterName => ConfigField::OutputDir,
            ConfigField::K8sEndpoint => ConfigField::ClusterName,
            ConfigField::NodeType => ConfigField::K8sEndpoint,
            ConfigField::OutputDir => ConfigField::NodeType,
        }
    }
}

} // verus!
