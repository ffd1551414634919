//! Cluster-level domain types: node roles, overall health, log levels.
use vstd::prelude::*;

use crate::checks::LoadAvg;
use crate::text::{decimal, digits};

verus! {

/// Role of a node in the cluster.
#[derive(Clone, Copy, Debug, PartialEq, Eq, Structural)]
pub enum NodeRole {
    ControlPlane,
    Worker,
    Unknown,
}

impl NodeRole {
    /// Short label: "CP", "Worker" or "?".
    pub fn label(&self) -> (r: &'static str)
        ensures
            r@ == match *self {
                NodeRole::ControlPlane => "CP"@,
                NodeRole::Worker => "Worker"@,
                NodeRole::Unknown => "?"@,
            },
    {
        match self {
            NodeRole::ControlPlane => "CP",
            NodeRole::Worker => "Worker",
            NodeRole::Unknown => "?",
        }
    }
}

/// Overall cluster health.
#[derive(Clone, Debug)]
pub enum ClusterHealth {
    Healthy,
    Degraded { unhealthy_nodes: usize, total_nodes: usize },
    Critical { reason: String },
    Unknown,
}

/// The label of a health value.
pub open spec fn health_label(h: ClusterHealth) -> Seq<char> {
    match h {
        ClusterHealth::Healthy => "Healthy"@,
        ClusterHealth::Degraded { unhealthy_nodes, total_nodes } => "Degraded ("@ + digits(
            unhealthy_nodes as nat,
            10,
        ) + "/"@ + digits(total_nodes as nat, 10) + ")"@,
        ClusterHealth::Critical { reason } => "Critical: "@ + reason@,
        ClusterHealth::Unknown => "Unknown"@,
    }
}

impl ClusterHealth {
    /// Status symbol: filled, half or empty circle, or "?".
    pub fn symbol(&self) -> (r: &'static str)
        ensures
            r@ == match *self {
                ClusterHealth::Healthy => "●"@,
                ClusterHealth::Degraded { .. } => "◐"@,
                ClusterHealth::Critical { .. } => "○"@,
                ClusterHealth::Unknown => "?"@,
            },
    {
        match self {
            ClusterHealth::Healthy => "●",
            ClusterHealth::Degraded { .. } => "◐",
            ClusterHealth::Critical { .. } => "○",
            ClusterHealth::Unknown => "?",
        }
    }

    /// Label such as "Degraded (1/3)" or "Critical: <reason>".
    pub fn label(&self) -> (r: String)
        ensures
            r@ == health_label(*self),
    {
        match self {
            ClusterHealth::Healthy => String::from_str("Healthy"),
            ClusterHealth::Degraded { unhealthy_nodes, total_nodes } => {
                let mut s = String::from_str("Degraded (");
                let a = decimal(*unhealthy_nodes as u64);
                s.append(a.as_str());
                s.append("/");
                let b = decimal(*total_nodes as u64);
                s.append(b.as_str());
                s.append(")");
                s
            },
            ClusterHealth::Critical { reason } => {
                let mut s = String::from_str("Critical: ");
                s.append(reason.as_str());
                s
            },
            ClusterHealth::Unknown => String::from_str("Unknown"),
        }
    }
}

/// Severity of a log line.
#[derive(Clone, Copy, Debug, PartialEq, Eq, Structural)]
pub enum LogLevel {
    Debug,
    Info,
    Warning,
    Error,
    Unknown,
}

impl LogLevel {
    /// Upper-case label: "DEBUG", "INFO", "WARN", "ERROR" or "???".
    pub fn label(&self) -> (r: &'static str)
        ensures
            r@ == match *self {
                LogLevel::Debug => "DEBUG"@,
                LogLevel::Info => "INFO"@,
                LogLevel::Warning => "WARN"@,
                LogLevel::Error => "ERROR"@,
                LogLevel::Unknown => "???"@,
            },
    {
        match self {
            LogLevel::Debug => "DEBUG",
            LogLevel::Info => "INFO",
            LogLevel::Warning => "WARN",
            LogLevel::Error => "ERROR",
            LogLevel::Unknown => "???",
        }
    }
}

/// Health of one node.
#[derive(Clone, Debug)]
pub enum NodeStatus {
    Healthy,
    Degraded { reason: String },
    /// Unreachable since this time, in seconds since the Unix epoch.
    Unreachable { since: i64 },
    Unknown,
}

impl NodeStatus {
    /// Whether the node is healthy.
    pub fn is_healthy(&self) -> (r: bool)
        ensures
            r == (*self is Healthy),
    {
        match self {
            NodeStatus::Healthy => true,
            _ => false,
        }
    }

    /// Status symbol: filled, half or empty circle, or "?".
    pub fn symbol(&self) -> (r: &'static str)
        ensures
            r@ == match *self {
                NodeStatus::Healthy => "●"@,
                NodeStatus::Degraded { .. } => "◐"@,
                NodeStatus::Unreachable { .. } => "○"@,
                NodeStatus::Unknown => "?"@,
            },
    {
        match self {
            NodeStatus::Healthy => "●",
            NodeStatus::Degraded { .. } => "◐",
            NodeStatus::Unreachable { .. } => "○",
            NodeStatus::Unknown => "?",
        }
    }
}

/// Running state of a system service.
#[derive(Clone, Copy, Debug, PartialEq, Eq, Structural)]
pub enum ServiceState {
    Running,
    Starting,
    Stopping,
    Stopped,
    Failed,
    Unknown,
}

impl ServiceState {
    /// The state's name, such as "Running".
    pub fn label(&self) -> (r: &'static str)
        ensures
            r@ == match *self {
                ServiceState::Running => "Running"@,
                ServiceState::Starting => "Starting"@,
                ServiceState::Stopping => "Stopping"@,
                ServiceState::Stopped => "Stopped"@,
                ServiceState::Failed => "Failed"@,
                ServiceState::Unknown => "Unknown"@,
            },
    {
        match self {
            ServiceState::Running => "Running",
            ServiceState::Starting => "Starting",
            ServiceState::Stopping => "Stopping",
            ServiceState::Stopped => "Stopped",
            ServiceState::Failed => "Failed",
            ServiceState::Unknown => "Unknown",
        }
    }
}

/// Health report of a service.
#[derive(Clone, Debug)]
pub struct ServiceHealth {
    pub healthy: bool,
    /// Time of the last check, in seconds since the Unix epoch.
    pub last_check: Option<i64>,
    pub message: Option<String>,
}

/// A service running on a node.
#[derive(Clone, Debug)]
pub struct Service {
    pub id: String,
    pub state: ServiceState,
    pub health: ServiceHealth,
}

/// Resource usage of a node. Percentages and load averages are held in
/// hundredths (a CPU use of 12.5% is 1250, a load of 0.75 is 75).
#[derive(Clone, Copy, Debug, PartialEq, Eq, Default, Structural)]
pub struct ResourceUsage {
    pub cpu_percent: u32,
    pub memory_used: u64,
    pub memory_total: u64,
    pub load_avg: LoadAvg,
}

impl ResourceUsage {
    /// Memory in use as a percentage in hundredths, rounded down; 0 when the
    /// total is unknown.
    pub fn memory_percent(&self) -> (r: u128)
        ensures
            self.memory_total == 0 ==> r == 0,
            self.memory_total > 0 ==> r == self.memory_used * 10000 / self.memory_total as int,
    {
        if self.memory_total == 0 {
            0
        } else {
            (self.memory_used as u128 * 10000) / self.memory_total as u128
        }
    }
}

/// A node of the cluster.
#[derive(Clone, Debug)]
pub struct Node {
    pub hostname: String,
    pub addresses: Vec<String>,
    pub role: NodeRole,
    pub status: NodeStatus,
    pub talos_version: String,
    pub kubernetes_version: Option<String>,
    pub services: Vec<Service>,
    pub resources: ResourceUsage,
}

/// A cluster and its nodes.
#[derive(Clone, Debug)]
pub struct Cluster {
    pub name: String,
    pub endpoints: Vec<String>,
    pub nodes: Vec<Node>,
    pub health: ClusterHealth,
    pub talos_version: Option<String>,
    pub kubernetes_version: Option<String>,
    /// Expiry of the cluster certificate, in seconds since the Unix epoch.
    pub cert_expiry: Option<i64>,
}

/// One log line of a node's service.
#[derive(Clone, Debug)]
pub struct LogLine {
    /// Time of the line, in seconds since the Unix epoch.
    pub timestamp: i64,
    pub node: String,
    pub service: String,
    pub level: LogLevel,
    pub message: String,
}

} // verus!
