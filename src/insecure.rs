//! Data of the maintenance-mode view: which list is shown, the dialogs,
//! and what was read from an unconfigured node.
use vstd::prelude::*;

use crate::storage::{DiskInfo, VolumeStatus};

verus! {

/// Which list the maintenance-mode view shows.
#[derive(Clone, Copy, Debug, PartialEq, Eq, Default, Structural)]
pub enum InsecureViewMode {
    #[default]
    Disks,
    Volumes,
}

impl InsecureViewMode {
    /// The other list.
    pub fn next(&self) -> (r: InsecureViewMode)
        ensures
            r == match *self {
                InsecureViewMode::Disks => InsecureViewMode::Volumes,
                InsecureViewMode::Volumes => InsecureViewMode::Disks,
            },
    {
        match self {
            InsecureViewMode::Disks => InsecureViewMode::Volumes,
            InsecureViewMode::Volumes => InsecureViewMode::Disks,
        }
    }
}

/// Type of node a configuration is applied as.
#[derive(Clone, Copy, Debug, PartialEq, Eq, Default, Structural)]
pub enum NodeType {
    #[default]
    Controlplane,
    Worker,
}

impl NodeType {
    /// The other node type.
    pub fn toggle(&self) -> (r: NodeType)
        ensures
            r == match *self {
                NodeType::Controlplane => NodeType::Worker,
                NodeType::Worker => NodeType::Controlplane,
            },
    {
        match self {
            NodeType::Controlplane => NodeType::Worker,
            NodeType::Worker => NodeType::Controlplane,
        }
    }

    /// File name of the generated config for this node type.
    pub fn config_filename(&self) -> (r: &'static str)
        ensures
            r@ == match *self {
                NodeType::Controlplane => "controlplane.yaml"@,
                NodeType::Worker => "worker.yaml"@,
            },
    {
        match self {
            NodeType::Controlplane => "controlplane.yaml",
            NodeType::Worker => "worker.yaml",
        }
    }

    /// "Control Plane" or "Worker".
    pub fn label(&self) -> (r: &'static str)
        ensures
            r@ == match *self {
                NodeType::Controlplane => "Control Plane"@,
                NodeType::Worker => "Worker"@,
            },
    {
        match self {
            NodeType::Controlplane => "Control Plane",
            NodeType::Worker => "Worker",
        }
    }
}

/// An action waiting for confirmation.
#[derive(Clone, Debug)]
pub enum ConfirmAction {
    /// Apply the config at this path.
    ApplyConfig(String),
}

/// The dialog shown, if any.
#[derive(Clone, Debug)]
pub enum DialogMode {
    Closed,
    /// Generate a config; `active_field` is 0 cluster name, 1 endpoint, 2 output dir.
    GenerateConfig { cluster_name: String, k8s_endpoint: String, output_dir: String, active_field: usize },
    ApplyConfig { config_path: String, node_type: NodeType },
    ShowResult { title: String, message: String, success: bool },
    Confirm { title: String, message: String, action: ConfirmAction },
}

/// What was read from a node in maintenance mode.
#[derive(Clone, Debug)]
pub struct InsecureData {
    pub endpoint: String,
    pub disks: Vec<DiskInfo>,
    pub volumes: Vec<VolumeStatus>,
    pub connected: bool,
}

/// Number of ':' characters in `s`.
pub open spec fn colon_count(s: Seq<char>) -> nat
    decreases s.len(),
{
    if s.len() == 0 {
        0
    } else {
        colon_count(s.drop_last()) + if s.last() == ':' { 1nat } else { 0nat }
    }
}

/// Position of the last ':' in `s`, if any.
pub open spec fn last_colon(s: Seq<char>) -> Option<int>
    decreases s.len(),
{
    if s.len() == 0 {
        None
    } else if s.last() == ':' {
        Some(s.len() - 1)
    } else {
        last_colon(s.drop_last())
    }
}

/// The endpoint without its port when it is "host:port"; an endpoint with
/// no colon, or with several (an IPv6 address), is kept whole.
pub open spec fn endpoint_host(s: Seq<char>) -> Seq<char> {
    if colon_count(s) == 1 {
        s.subrange(0, last_colon(s)->0)
    } else {
        s
    }
}

proof fn lemma_last_colon(s: Seq<char>)
    ensures
        colon_count(s) > 0 <==> last_colon(s) is Some,
        last_colon(s) is Some ==> 0 <= last_colon(s)->0 < s.len(),
    decreases s.len(),
{
    if s.len() > 0 {
        lemma_last_colon(s.drop_last());
    }
}

/// The endpoint in the form the command-line client takes (see
/// `endpoint_host`).
pub fn endpoint_for_talosctl(endpoint: &str) -> (r: String)
    ensures
        r@ == endpoint_host(endpoint@),
{
    let n = endpoint.unicode_len();
    let mut count: usize = 0;
    let mut last: usize = 0;
    let mut i: usize = 0;
    while i < n
        invariant
            n == endpoint@.len(),
            i <= n,
            count == colon_count(endpoint@.subrange(0, i as int)),
            count <= i,
            count > 0 ==> last_colon(endpoint@.subrange(0, i as int)) == Some(last as int),
        decreases n - i,
    {
        let ghost pre = endpoint@.subrange(0, i as int);
        let ghost next = endpoint@.subrange(0, i + 1);
        assert(next.drop_last() =~= pre);
        proof {
            lemma_last_colon(pre);
        }
        if endpoint.get_char(i) == ':' {
            count = count + 1;
            last = i;
        }
        i = i + 1;
    }
    assert(endpoint@.subrange(0, n as int) =~= endpoint@);
    proof {
        lemma_last_colon(endpoint@);
    }
    if count == 1 {
        String::from_str(endpoint.substring_char(0, last))
    } else {
        String::from_str(endpoint)
    }
}

} // verus!
