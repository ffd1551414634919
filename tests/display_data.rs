use talos_pilot::addons::DetectedAddons;
use talos_pilot::session::{DiagnosticsComponent, DiagnosticsData, GroupViewMode};
use talos_pilot::types::{DiagnosticCheck, DiagnosticContext};

fn make_check(name: &str) -> DiagnosticCheck {
    DiagnosticCheck::pass(name, name, "OK")
}

fn make_diagnostics_data(hostname: &str) -> DiagnosticsData {
    DiagnosticsData {
        hostname: hostname.to_string(),
        address: format!("10.0.0.{}", hostname.chars().last().unwrap_or('1')),
        context: DiagnosticContext::new(),
        system_checks: vec![make_check("cpu"), make_check("memory")],
        kubernetes_checks: vec![make_check("etcd")],
        cni_checks: vec![make_check("cni_health")],
        service_checks: vec![make_check("kubelet")],
        addon_checks: vec![],
        detected_addons: DetectedAddons::default(),
    }
}

fn create_single_node_component() -> DiagnosticsComponent {
    let mut component = DiagnosticsComponent::new(
        "test-node".to_string(),
        "10.0.0.1".to_string(),
        "controlplane".to_string(),
        None,
    );
    let data = make_diagnostics_data("test-node");
    component.set_data(data);
    component
}

fn create_group_component() -> DiagnosticsComponent {
    let nodes = vec![
        ("node-1".to_string(), "10.0.0.1".to_string()),
        ("node-2".to_string(), "10.0.0.2".to_string()),
    ];
    let mut component = DiagnosticsComponent::new_group(
        "Control Plane".to_string(),
        "controlplane".to_string(),
        nodes,
        None,
        None,
    );
    component.add_node_diagnostics("node-1".to_string(), make_diagnostics_data("node-1"));
    component.add_node_diagnostics("node-2".to_string(), make_diagnostics_data("node-2"));
    component
}

#[test]
fn test_get_display_data_single_node_returns_merged_data() {
    let component = create_single_node_component();

    let result = component.get_display_data();
    assert!(result.is_some());

    let data = result.unwrap();
    assert_eq!(data.system_checks.len(), 2);
    assert_eq!(data.kubernetes_checks.len(), 1);
    assert!(data.system_checks.iter().any(|c| c.name == "cpu"));
    assert!(data.system_checks.iter().any(|c| c.name == "memory"));
}

#[test]
fn test_get_display_data_group_interleaved_returns_merged_data() {
    let mut component = create_group_component();
    component.group_view_mode = GroupViewMode::Interleaved;

    let result = component.get_display_data();
    assert!(result.is_some());

    let data = result.unwrap();
    assert_eq!(data.system_checks.len(), 4);
    assert!(data
        .system_checks
        .iter()
        .any(|c| c.name.starts_with("[node-1]") || c.name.starts_with("[node-2]")));
}

#[test]
fn test_get_display_data_group_bynode_returns_selected_node_data() {
    let mut component = create_group_component();
    component.group_view_mode = GroupViewMode::ByNode;
    component.selected_node_tab = 0;

    let result = component.get_display_data();
    assert!(result.is_some());

    let data = result.unwrap();
    assert_eq!(data.hostname, "node-1");
    assert_eq!(data.system_checks.len(), 2);
    assert!(data.system_checks.iter().any(|c| c.name == "cpu"));
}

#[test]
fn test_get_display_data_group_bynode_second_node() {
    let mut component = create_group_component();
    component.group_view_mode = GroupViewMode::ByNode;
    component.selected_node_tab = 1;

    let result = component.get_display_data();
    assert!(result.is_some());

    let data = result.unwrap();
    assert_eq!(data.hostname, "node-2");
    assert_eq!(data.system_checks.len(), 2);
}

#[test]
fn test_get_display_data_returns_none_when_tab_out_of_bounds() {
    let mut component = create_group_component();
    component.group_view_mode = GroupViewMode::ByNode;
    component.selected_node_tab = 99;

    let result = component.get_display_data();
    assert!(result.is_none(), "Should return None for invalid tab index");
}

#[test]
fn test_get_display_data_group_bynode_with_no_data_for_node() {
    let nodes = vec![
        ("node-1".to_string(), "10.0.0.1".to_string()),
        ("node-2".to_string(), "10.0.0.2".to_string()),
    ];
    let mut component = DiagnosticsComponent::new_group(
        "Control Plane".to_string(),
        "controlplane".to_string(),
        nodes,
        None,
        None,
    );
    component.group_view_mode = GroupViewMode::ByNode;

    component.add_node_diagnostics("node-1".to_string(), make_diagnostics_data("node-1"));

    component.selected_node_tab = 1;

    let result = component.get_display_data();
    assert!(
        result.is_none(),
        "Should return None when selected node has no data"
    );
}

#[test]
fn test_get_display_data_single_node_not_affected_by_view_mode() {
    let mut component = create_single_node_component();

    component.group_view_mode = GroupViewMode::ByNode;

    let result = component.get_display_data();
    assert!(result.is_some());

    let data = result.unwrap();
    assert_eq!(data.system_checks.len(), 2);
}

#[test]
fn interleaved_names_carry_host_prefix_in_node_order() {
    let component = create_group_component();
    let data = component.get_display_data().unwrap();
    let names: Vec<&str> = data.system_checks.iter().map(|c| c.name.as_str()).collect();
    assert_eq!(names, vec!["[node-1] cpu", "[node-1] memory", "[node-2] cpu", "[node-2] memory"]);
    assert_eq!(data.system_checks[0].id, "cpu");
    assert_eq!(data.hostname, "Control Plane");
}

#[test]
fn adding_same_node_twice_equals_adding_once() {
    let mut once = create_group_component();
    let mut twice = create_group_component();
    twice.add_node_diagnostics("node-1".to_string(), make_diagnostics_data("node-1"));
    let a = once.take_data().unwrap();
    let b = twice.take_data().unwrap();
    let names = |d: &DiagnosticsData| d.system_checks.iter().map(|c| c.name.clone()).collect::<Vec<_>>();
    assert_eq!(names(&a), names(&b));
    assert_eq!(a.kubernetes_checks.len(), b.kubernetes_checks.len());
    assert_eq!(a.service_checks.len(), 2);
    assert_eq!(b.service_checks.len(), 2);
    assert_eq!(once.node_data.len(), twice.node_data.len());
}

#[test]
fn replacing_a_node_rebuilds_rather_than_appends() {
    let mut component = create_group_component();
    let mut fresh = make_diagnostics_data("node-1");
    fresh.system_checks = vec![make_check("disk")];
    component.add_node_diagnostics("node-1".to_string(), fresh);
    let data = component.get_display_data().unwrap();
    let names: Vec<&str> = data.system_checks.iter().map(|c| c.name.as_str()).collect();
    assert_eq!(names, vec!["[node-1] disk", "[node-2] cpu", "[node-2] memory"]);
}

#[test]
fn group_with_no_nodes_has_empty_lists() {
    let mut component = DiagnosticsComponent::new_group(
        "Workers".to_string(),
        "worker".to_string(),
        vec![],
        None,
        None,
    );
    let data = component.get_display_data().unwrap();
    assert!(data.system_checks.is_empty() && data.addon_checks.is_empty());
    component.toggle_view_mode();
    assert!(component.get_display_data().is_none());
    assert_eq!(component.current_count(), 0);
}

#[test]
fn single_node_session_ignores_node_data() {
    let mut component = create_single_node_component();
    component.add_node_diagnostics("node-9".to_string(), make_diagnostics_data("node-9"));
    assert!(component.node_data.is_empty());
    assert_eq!(component.get_display_data().unwrap().hostname, "test-node");
}

#[test]
fn node_tabs_clamp_and_reset_selection() {
    let mut component = create_group_component();
    component.next_node_tab();
    assert_eq!(component.selected_node_tab, 0, "tabs move only in by-node mode");
    component.toggle_view_mode();
    assert_eq!(component.group_view_mode, GroupViewMode::ByNode);
    component.next_check();
    assert_eq!(component.selected_check, 1);
    component.next_node_tab();
    assert_eq!(component.selected_node_tab, 1);
    assert_eq!(component.selected_check, 0);
    component.next_node_tab();
    assert_eq!(component.selected_node_tab, 1);
    component.prev_node_tab();
    component.prev_node_tab();
    assert_eq!(component.selected_node_tab, 0);
}
