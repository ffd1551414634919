use talos_pilot::storage::{DiskInfo, GroupViewMode, StorageComponent, StorageData, StorageViewMode, VolumeStatus};

fn make_disk(id: &str) -> DiskInfo {
    DiskInfo {
        id: id.to_string(),
        dev_path: format!("/dev/{}", id),
        size: 500_000_000_000,
        size_pretty: "500 GB".to_string(),
        model: Some("Test Disk".to_string()),
        serial: Some("ABC123".to_string()),
        transport: Some("sata".to_string()),
        rotational: false,
        readonly: false,
        cdrom: false,
        wwid: None,
        bus_path: None,
    }
}

fn make_volume(id: &str) -> VolumeStatus {
    VolumeStatus {
        id: id.to_string(),
        encryption_provider: None,
        phase: "ready".to_string(),
        size: "10 GB".to_string(),
        filesystem: Some("xfs".to_string()),
        mount_location: Some(format!("/var/{}", id)),
    }
}

fn create_single_node_component() -> StorageComponent {
    let mut component = StorageComponent::new(
        "test-node".to_string(),
        "10.0.0.1".to_string(),
        None,
        None,
    );

    let mut data = StorageData::default();
    data.disks = vec![make_disk("sda"), make_disk("sdb")];
    data.volumes = vec![make_volume("STATE"), make_volume("EPHEMERAL")];

    component.set_data(data);
    component
}

fn create_group_component() -> StorageComponent {
    let nodes = vec![
        ("node-1".to_string(), "10.0.0.1".to_string()),
        ("node-2".to_string(), "10.0.0.2".to_string()),
    ];
    let mut component = StorageComponent::new_group("Control Plane".to_string(), nodes);

    component.add_node_storage(
        "node-1".to_string(),
        vec![make_disk("sda"), make_disk("sdb")],
        vec![make_volume("STATE")],
    );
    component.add_node_storage(
        "node-2".to_string(),
        vec![make_disk("nvme0n1")],
        vec![make_volume("STATE"), make_volume("EPHEMERAL")],
    );

    component
}

#[test]
fn test_get_display_disks_single_node_returns_all_disks() {
    let component = create_single_node_component();

    let result = component.get_display_disks();
    assert!(result.is_some());

    let disks = result.unwrap();
    assert_eq!(disks.len(), 2);
    assert!(disks.iter().any(|d| d.id == "sda"));
    assert!(disks.iter().any(|d| d.id == "sdb"));
}

#[test]
fn test_get_display_disks_group_interleaved_returns_merged_data() {
    let mut component = create_group_component();
    component.group_view_mode = GroupViewMode::Interleaved;

    let result = component.get_display_disks();
    assert!(result.is_some());

    let disks = result.unwrap();
    assert_eq!(disks.len(), 3);
    assert!(disks
        .iter()
        .any(|d| d.dev_path.contains("node-1:") || d.dev_path.contains("node-2:")));
}

#[test]
fn test_get_display_disks_group_bynode_returns_selected_node_data() {
    let mut component = create_group_component();
    component.group_view_mode = GroupViewMode::ByNode;
    component.selected_node_tab = 0;

    let result = component.get_display_disks();
    assert!(result.is_some());

    let disks = result.unwrap();
    assert_eq!(disks.len(), 2);
    assert!(disks.iter().any(|d| d.id == "sda"));
    assert!(disks.iter().any(|d| d.id == "sdb"));
    assert!(!disks.iter().any(|d| d.id == "nvme0n1"));
}

#[test]
fn test_get_display_disks_group_bynode_second_node() {
    let mut component = create_group_component();
    component.group_view_mode = GroupViewMode::ByNode;
    component.selected_node_tab = 1;

    let result = component.get_display_disks();
    assert!(result.is_some());

    let disks = result.unwrap();
    assert_eq!(disks.len(), 1);
    assert!(disks.iter().any(|d| d.id == "nvme0n1"));
    assert!(!disks.iter().any(|d| d.id == "sda"));
}

#[test]
fn test_get_display_disks_returns_none_when_tab_out_of_bounds() {
    let mut component = create_group_component();
    component.group_view_mode = GroupViewMode::ByNode;
    component.selected_node_tab = 99;

    let result = component.get_display_disks();
    assert!(result.is_none(), "Should return None for invalid tab index");
}

#[test]
fn test_get_display_volumes_single_node_returns_all_volumes() {
    let component = create_single_node_component();

    let result = component.get_display_volumes();
    assert!(result.is_some());

    let volumes = result.unwrap();
    assert_eq!(volumes.len(), 2);
    assert!(volumes.iter().any(|v| v.id == "STATE"));
    assert!(volumes.iter().any(|v| v.id == "EPHEMERAL"));
}

#[test]
fn test_get_display_volumes_group_interleaved_returns_merged_data() {
    let mut component = create_group_component();
    component.group_view_mode = GroupViewMode::Interleaved;

    let result = component.get_display_volumes();
    assert!(result.is_some());

    let volumes = result.unwrap();
    assert_eq!(volumes.len(), 3);
    assert!(volumes
        .iter()
        .any(|v| v.id.contains("node-1:") || v.id.contains("node-2:")));
}

#[test]
fn test_get_display_volumes_group_bynode_returns_selected_node_data() {
    let mut component = create_group_component();
    component.group_view_mode = GroupViewMode::ByNode;
    component.selected_node_tab = 0;

    let result = component.get_display_volumes();
    assert!(result.is_some());

    let volumes = result.unwrap();
    assert_eq!(volumes.len(), 1);
    assert!(volumes.iter().any(|v| v.id == "STATE"));
}

#[test]
fn test_get_display_volumes_group_bynode_second_node() {
    let mut component = create_group_component();
    component.group_view_mode = GroupViewMode::ByNode;
    component.selected_node_tab = 1;

    let result = component.get_display_volumes();
    assert!(result.is_some());

    let volumes = result.unwrap();
    assert_eq!(volumes.len(), 2);
    assert!(volumes.iter().any(|v| v.id == "STATE"));
    assert!(volumes.iter().any(|v| v.id == "EPHEMERAL"));
}

#[test]
fn test_get_display_volumes_returns_none_when_tab_out_of_bounds() {
    let mut component = create_group_component();
    component.group_view_mode = GroupViewMode::ByNode;
    component.selected_node_tab = 99;

    let result = component.get_display_volumes();
    assert!(result.is_none(), "Should return None for invalid tab index");
}

#[test]
fn test_get_display_volumes_group_bynode_with_no_data_for_node() {
    let nodes = vec![
        ("node-1".to_string(), "10.0.0.1".to_string()),
        ("node-2".to_string(), "10.0.0.2".to_string()),
    ];
    let mut component = StorageComponent::new_group("Control Plane".to_string(), nodes);
    component.group_view_mode = GroupViewMode::ByNode;

    component.add_node_storage(
        "node-1".to_string(),
        vec![make_disk("sda")],
        vec![make_volume("STATE")],
    );

    component.selected_node_tab = 1;

    let result = component.get_display_volumes();
    assert!(
        result.is_none(),
        "Should return None when selected node has no data"
    );

    let disk_result = component.get_display_disks();
    assert!(
        disk_result.is_none(),
        "Should return None for disks when selected node has no data"
    );
}

#[test]
fn merged_storage_labels_and_replacement() {
    let mut component = create_group_component();
    let paths: Vec<String> = component.get_display_disks().unwrap().iter().map(|d| d.dev_path.clone()).collect();
    assert_eq!(paths, vec!["node-1:/dev/sda", "node-1:/dev/sdb", "node-2:/dev/nvme0n1"]);
    component.add_node_storage("node-1".to_string(), vec![], vec![make_volume("META")]);
    let ids: Vec<String> = component.get_display_volumes().unwrap().iter().map(|v| v.id.clone()).collect();
    assert_eq!(ids, vec!["node-1:META", "node-2:STATE", "node-2:EPHEMERAL"]);
    assert_eq!(component.get_display_disks().unwrap().len(), 1);
    assert_eq!(component.get_display_disks().unwrap()[0].id, "nvme0n1");
}

#[test]
fn storage_selection_wraps_and_address_loses_port() {
    let mut component = create_single_node_component();
    assert_eq!(component.node_address.as_deref(), Some("10.0.0.1"));
    component.select_prev();
    assert_eq!(component.selected_disk, 1);
    component.select_next();
    assert_eq!(component.selected_disk, 0);
    component.view_mode = StorageViewMode::Volumes;
    component.select_next();
    component.select_next();
    assert_eq!(component.selected_volume, 0);
    let with_port = StorageComponent::new("n".to_string(), "10.0.0.7:50000".to_string(), None, None);
    assert_eq!(with_port.node_address.as_deref(), Some("10.0.0.7"));
    let empty = StorageComponent::new("n".to_string(), String::new(), None, None);
    assert!(empty.node_address.is_none());
}
