use talos_pilot::checks::LoadAvg;
use talos_pilot::cluster::{ClusterHealth, LogLevel, NodeRole, NodeStatus, ResourceUsage, ServiceState};
use talos_pilot::insecure::endpoint_for_talosctl;
use talos_pilot::logs::LogLevel as EntryLevel;
use talos_pilot::insecure::{InsecureViewMode, NodeType as MaintenanceNodeType};
use talos_pilot::k8s::K8sError;
use talos_pilot::network::SortBy;
use talos_pilot::storage::{DiskInfo, StorageViewMode};
use talos_pilot::text::{decimal, hex, recent_lines, signed};
use talos_pilot::wizard::{format_poll_error, ConfigField, NodeType, WizardData, WizardState};

fn disk(path: &str, readonly: bool, cdrom: bool) -> DiskInfo {
    DiskInfo {
        id: path.to_string(),
        dev_path: path.to_string(),
        model: None,
        serial: None,
        wwid: None,
        size: 1 << 30,
        size_pretty: "1.1 GB".to_string(),
        transport: None,
        rotational: false,
        readonly,
        cdrom,
        bus_path: None,
    }
}

#[test]
fn cluster_health_labels() {
    assert_eq!(ClusterHealth::Healthy.label(), "Healthy");
    assert_eq!(ClusterHealth::Degraded { unhealthy_nodes: 1, total_nodes: 3 }.label(), "Degraded (1/3)");
    assert_eq!(ClusterHealth::Critical { reason: "etcd lost".to_string() }.label(), "Critical: etcd lost");
    assert_eq!(ClusterHealth::Unknown.label(), "Unknown");
    assert_eq!(ClusterHealth::Healthy.symbol(), "●");
    assert_eq!(ClusterHealth::Degraded { unhealthy_nodes: 0, total_nodes: 0 }.symbol(), "◐");
    assert_eq!(ClusterHealth::Critical { reason: String::new() }.symbol(), "○");
    assert_eq!(ClusterHealth::Unknown.symbol(), "?");
    assert_eq!(NodeRole::ControlPlane.label(), "CP");
    assert_eq!(LogLevel::Warning.label(), "WARN");
}

#[test]
fn wizard_steps() {
    assert_eq!(WizardState::Connecting.step_number(), 1);
    assert_eq!(WizardState::Complete.step_number(), 10);
    assert_eq!(WizardState::Error("x".to_string()).step_number(), 0);
    assert_eq!(WizardState::total_steps(), 10);
    assert_eq!(WizardState::SelectDisk.title(), "Select Installation Disk");
    assert_eq!(WizardState::Error("x".to_string()).title(), "Error");
    assert_eq!(NodeType::Controlplane.toggle(), NodeType::Worker);
    assert_eq!(NodeType::Worker.config_filename(), "worker.yaml");
    assert_eq!(ConfigField::OutputDir.next(), ConfigField::ClusterName);
    assert_eq!(ConfigField::ClusterName.prev(), ConfigField::OutputDir);
    assert_eq!(ConfigField::NodeType.prev(), ConfigField::K8sEndpoint);
}

#[test]
fn wizard_data_defaults_and_disks() {
    let mut data = WizardData::new("10.0.0.9".to_string());
    assert_eq!(data.k8s_endpoint, "https://10.0.0.9:6443");
    assert_eq!(data.cluster_name, "talos-cluster");
    assert_eq!(data.output_dir, ".");
    assert_eq!(data.node_type, NodeType::Controlplane);
    data.disks = vec![disk("/dev/sda", false, false), disk("/dev/sr0", false, true), disk("/dev/sdb", true, false), disk("/dev/nvme0n1", false, false)];
    let paths: Vec<&str> = data.installable_disks().iter().map(|d| d.dev_path.as_str()).collect();
    assert_eq!(paths, vec!["/dev/sda", "/dev/nvme0n1"]);
    assert_eq!(data.spinner(), "⠋");
    data.advance_spinner();
    assert_eq!(data.spinner(), "⠙");
    for _ in 0..9 {
        data.advance_spinner();
    }
    assert_eq!(data.spinner_frame, 0);
    data.spinner_frame = usize::MAX;
    data.advance_spinner();
    assert_eq!(data.spinner_frame, 6);
}

#[test]
fn poll_errors_are_explained() {
    assert_eq!(format_poll_error("x509: bad cert"), "Certificate mismatch - remove old config and regenerate");
    assert_eq!(format_poll_error("dial: connection refused"), "Connection refused - node may not be running");
    assert_eq!(format_poll_error("code = Unavailable"), "Node not reachable - waiting for boot...");
    assert_eq!(format_poll_error("context deadline exceeded"), "Connection timeout - node may still be booting");
    assert_eq!(format_poll_error("short"), "short");
    let long = "e".repeat(100);
    assert_eq!(format_poll_error(&long), format!("{}...", "e".repeat(77)));
    assert_eq!(format_poll_error(&"f".repeat(80)), "f".repeat(80));
}

#[test]
fn view_mode_enums() {
    assert_eq!(StorageViewMode::Disks.next(), StorageViewMode::Volumes);
    assert_eq!(StorageViewMode::Volumes.label(), "Volumes");
    assert_eq!(InsecureViewMode::Volumes.next(), InsecureViewMode::Disks);
    assert_eq!(MaintenanceNodeType::Controlplane.label(), "Control Plane");
    assert_eq!(MaintenanceNodeType::Worker.toggle(), MaintenanceNodeType::Controlplane);
    assert_eq!(MaintenanceNodeType::Controlplane.config_filename(), "controlplane.yaml");
    assert_eq!(SortBy::Errors.label(), "ERRORS");
    assert_eq!(SortBy::default().label(), "TRAFFIC");
}

#[test]
fn number_and_log_text() {
    assert_eq!(decimal(0), "0");
    assert_eq!(decimal(1234567890), "1234567890");
    assert_eq!(hex(255), "ff");
    assert_eq!(hex(0x1a2b), "1a2b");
    assert_eq!(signed(-42), "-42");
    assert_eq!(signed(i128::MIN), i128::MIN.to_string());
    let text = (0..25).map(|i| format!("l{}", i)).collect::<Vec<_>>().join("\n");
    let recent = recent_lines(&text, 20);
    assert!(recent.starts_with("l5\n"));
    assert!(recent.ends_with("l24"));
    assert_eq!(recent_lines("a\r\nb", 20), "a\r\nb");
    assert_eq!(K8sError::KubeconfigParse("bad yaml".to_string()).message(), "Failed to parse kubeconfig: bad yaml");
}

#[test]
fn node_status_and_service_state() {
    assert!(NodeStatus::Healthy.is_healthy());
    assert!(!NodeStatus::Unreachable { since: 1_700_000_000 }.is_healthy());
    assert_eq!(NodeStatus::Degraded { reason: "disk".to_string() }.symbol(), "◐");
    assert_eq!(NodeStatus::Unreachable { since: 0 }.symbol(), "○");
    assert_eq!(ServiceState::Failed.label(), "Failed");
}

#[test]
fn log_levels_from_text() {
    assert_eq!(EntryLevel::from_str("ERROR"), EntryLevel::Error);
    assert_eq!(EntryLevel::from_str("E: stderr"), EntryLevel::Error);
    assert_eq!(EntryLevel::from_str("Warning"), EntryLevel::Warn);
    assert_eq!(EntryLevel::from_str("info"), EntryLevel::Info);
    assert_eq!(EntryLevel::from_str("TRACE"), EntryLevel::Debug);
    assert_eq!(EntryLevel::from_str("notice"), EntryLevel::Unknown);
    assert_eq!(EntryLevel::Warn.badge(), "WRN");
    assert_eq!(EntryLevel::Unknown.badge(), "---");
}

#[test]
fn endpoint_port_is_dropped_for_host_and_port_only() {
    assert_eq!(endpoint_for_talosctl("10.0.0.1:50000"), "10.0.0.1");
    assert_eq!(endpoint_for_talosctl("10.0.0.1"), "10.0.0.1");
    assert_eq!(endpoint_for_talosctl("fe80::1"), "fe80::1");
    assert_eq!(endpoint_for_talosctl(""), "");
}

#[test]
fn resource_usage_memory_percent() {
    let r = ResourceUsage { cpu_percent: 1250, memory_used: 3, memory_total: 8, load_avg: LoadAvg::default() };
    assert_eq!(r.memory_percent(), 3750);
    assert_eq!(ResourceUsage::default().memory_percent(), 0);
}
