use talos_pilot::addons::{detect_addons, run_addon_checks, DetectedAddons};
use talos_pilot::checks::{
    check_cni_health, memory_check, run_kubernetes_checks, run_service_checks, run_system_checks,
    EtcdMember, LoadAvg, MemInfo, ServiceReport,
};
use talos_pilot::cni::{check_cni_pods, detect_cni, detect_cni_from_logs, needs_log_fallback, run_cni_checks};
use talos_pilot::k8s::{
    are_cni_pods_healthy, cni_pod_health_summary, detect_cni_from_k8s, CniInfo, CniPodInfo, K8sError,
    PodCondition, PodRecord,
};
use talos_pilot::session::{
    CheckLists, ConfirmOutcome, DiagnosticsComponent, FixDispatch, LoadState, RemediationState,
};
use talos_pilot::types::{CheckStatus, CniType, DiagnosticCheck, DiagnosticContext, DiagnosticFix, FixAction};

const GIB: u64 = 1073741824;

fn pod(name: &str, phase: &str, ready: bool, restarts: Vec<i32>) -> PodRecord {
    PodRecord {
        name: Some(name.to_string()),
        phase: Some(phase.to_string()),
        conditions: vec![PodCondition {
            kind: "Ready".to_string(),
            status: if ready { "True" } else { "False" }.to_string(),
        }],
        container_restarts: restarts,
    }
}

fn pod_info(name: &str, phase: &str, ready: bool, restarts: i32) -> CniPodInfo {
    CniPodInfo { name: name.to_string(), phase: phase.to_string(), ready, restart_count: restarts }
}

fn lines(n: usize, marker_at: Option<usize>, marker: &str) -> String {
    let mut out = Vec::new();
    for i in 0..n {
        if Some(i) == marker_at {
            out.push(format!("line {} {}", i, marker));
        } else {
            out.push(format!("line {} ok", i));
        }
    }
    out.join("\n")
}

#[test]
fn memory_thresholds() {
    let fail = memory_check(MemInfo { mem_total: 16 * GIB, mem_available: GIB });
    assert_eq!(fail.status, CheckStatus::Fail);
    assert_eq!(fail.message, "15.0 / 16.0 GB (94%)");
    assert_eq!(fail.id, "memory");
    let pass = memory_check(MemInfo { mem_total: 16 * GIB, mem_available: 4 * GIB });
    assert_eq!(pass.status, CheckStatus::Pass);
    assert_eq!(pass.message, "12.0 / 16.0 GB (75%)");
    let warn = memory_check(MemInfo { mem_total: 16 * GIB, mem_available: 3006477107 });
    assert_eq!(warn.status, CheckStatus::Warn);
    assert_eq!(warn.message, "13.2 / 16.0 GB (83%)");
}

#[test]
fn memory_edge_cases() {
    let empty = memory_check(MemInfo { mem_total: 0, mem_available: 0 });
    assert_eq!(empty.status, CheckStatus::Pass);
    assert_eq!(empty.message, "0.0 / 0.0 GB (0%)");
    let odd = memory_check(MemInfo { mem_total: GIB, mem_available: 2 * GIB });
    assert_eq!(odd.status, CheckStatus::Pass);
}

#[test]
fn system_checks_per_source() {
    let checks = run_system_checks(
        &Ok(Some(MemInfo { mem_total: 16 * GIB, mem_available: 4 * GIB })),
        &Ok(Some(LoadAvg { load1: 512, load5: 305, load15: 7 })),
    );
    assert_eq!(checks.len(), 2);
    assert_eq!(checks[1].id, "cpu_load");
    assert_eq!(checks[1].message, "5.12 / 3.05 / 0.07");
    assert_eq!(checks[1].status, CheckStatus::Warn);

    let checks = run_system_checks(&Err("rpc down".to_string()), &Ok(None));
    assert_eq!(checks.len(), 1);
    assert_eq!(checks[0].status, CheckStatus::Unknown);
    assert_eq!(checks[0].details.as_deref(), Some("Error: rpc down"));

    let checks = run_system_checks(&Ok(None), &Ok(Some(LoadAvg { load1: 400, load5: 0, load15: 0 })));
    assert_eq!(checks.len(), 1);
    assert_eq!(checks[0].status, CheckStatus::Pass);
    assert_eq!(checks[0].message, "4.00 / 0.00 / 0.00");
}

#[test]
fn unhealthy_service_gets_restart_fix() {
    let services = vec![
        ServiceReport { id: "etcd".to_string(), state: "Running".to_string(), healthy: Some(true) },
        ServiceReport { id: "kubelet".to_string(), state: "Running".to_string(), healthy: Some(false) },
        ServiceReport { id: "apid".to_string(), state: "Starting".to_string(), healthy: None },
    ];
    let checks = run_service_checks(&Ok(services));
    assert_eq!(checks.len(), 3);
    assert_eq!(checks[0].status, CheckStatus::Pass);
    assert_eq!(checks[0].message, "Running (healthy)");
    assert_eq!(checks[1].id, "service_kubelet");
    assert_eq!(checks[1].message, "Running (unhealthy)");
    assert_eq!(checks[1].status, CheckStatus::Fail);
    let fix = checks[1].fix.as_ref().unwrap();
    assert_eq!(fix.description, "Restart kubelet");
    assert!(matches!(&fix.action, FixAction::RestartService(s) if s == "kubelet"));
    assert!(!fix.action.requires_reboot());
    assert!(!fix.action.is_host_command());
    assert_eq!(checks[2].status, CheckStatus::Fail);

    let failed = run_service_checks(&Err("timeout".to_string()));
    assert_eq!(failed.len(), 1);
    assert_eq!(failed[0].id, "services");
    assert_eq!(failed[0].status, CheckStatus::Unknown);
}

#[test]
fn fix_action_flags_follow_variant() {
    let patch = FixAction::ApplyConfigPatch { yaml: "a: b".to_string(), requires_reboot: true };
    assert!(patch.requires_reboot());
    let patch = FixAction::ApplyConfigPatch { yaml: "a: b".to_string(), requires_reboot: false };
    assert!(!patch.requires_reboot());
    assert!(FixAction::AddKernelModule("br_netfilter".to_string()).requires_reboot());
    let host = FixAction::HostCommand { command: "talosctl reboot".to_string(), disruptive: true };
    assert!(host.is_host_command());
    assert!(!host.requires_reboot());
    assert!(!FixAction::InstallCilium.is_host_command());
}

#[test]
fn control_plane_checks() {
    let mut ctx = DiagnosticContext::new();
    ctx.node_role = "controlplane".to_string();
    let logs = Ok(lines(25, Some(2), "CrashLoopBackOff"));
    let checks = run_kubernetes_checks(&ctx, &Ok(Some(EtcdMember { member_id: 1, leader_id: 255 })), &logs);
    assert_eq!(checks.len(), 2);
    assert_eq!(checks[0].message, "Follower (leader: ff)");
    assert_eq!(checks[0].status, CheckStatus::Pass);
    assert_eq!(checks[1].message, "No issues detected");

    let logs = Ok(lines(25, Some(24), "CrashLoopBackOff"));
    let checks = run_kubernetes_checks(&ctx, &Ok(Some(EtcdMember { member_id: 7, leader_id: 7 })), &logs);
    assert_eq!(checks[0].message, "Leader, healthy");
    assert_eq!(checks[1].status, CheckStatus::Warn);

    let checks = run_kubernetes_checks(&ctx, &Err("down".to_string()), &Err("gone".to_string()));
    assert_eq!(checks[0].id, "etcd");
    assert_eq!(checks[0].status, CheckStatus::Unknown);
    assert_eq!(checks[0].details.as_deref(), Some("Error: down"));
    assert_eq!(checks[1].status, CheckStatus::Unknown);

    ctx.node_role = "worker".to_string();
    let checks = run_kubernetes_checks(&ctx, &Err("down".to_string()), &Ok(String::new()));
    assert_eq!(checks.len(), 1);
    assert_eq!(checks[0].id, "pods_crashing");
}

#[test]
fn fallback_detection_from_logs() {
    let mut ctx = DiagnosticContext::new();
    let listing: Result<Vec<PodRecord>, K8sError> =
        Err(K8sError::ClientCreate("connection refused".to_string()));
    assert!(needs_log_fallback(&listing));
    let logs = Some(Ok("starting cilium agent on node".to_string()));
    let (kind, info) = detect_cni(&mut ctx, &listing, &logs);
    assert_eq!(kind, CniType::Cilium);
    assert!(info.is_none());
    assert_eq!(ctx.k8s_error.as_deref(), Some("Failed to create K8s client: connection refused"));
}

#[test]
fn listing_wins_over_logs() {
    let mut ctx = DiagnosticContext::new();
    ctx.k8s_error = Some("old".to_string());
    let listing = Ok(vec![
        pod("coredns-1", "Running", true, vec![0]),
        pod("kube-flannel-ds-abc", "Running", true, vec![1, 2]),
    ]);
    assert!(!needs_log_fallback(&listing));
    let logs = Some(Ok("cilium calico felix".to_string()));
    let (kind, info) = detect_cni(&mut ctx, &listing, &logs);
    assert_eq!(kind, CniType::Flannel);
    let info = info.unwrap();
    assert_eq!(info.pods.len(), 1);
    assert_eq!(info.pods[0].name, "kube-flannel-ds-abc");
    assert_eq!(info.pods[0].restart_count, 3);
    assert!(info.pods[0].ready);
    assert!(ctx.k8s_error.is_none());
}

#[test]
fn empty_listing_falls_back_and_unknown_without_markers() {
    let mut ctx = DiagnosticContext::new();
    let listing = Ok(vec![pod("coredns-1", "Running", true, vec![])]);
    let (kind, info) = detect_cni(&mut ctx, &listing, &Some(Ok("felix started".to_string())));
    assert_eq!(kind, CniType::Calico);
    assert!(info.is_none());
    let (kind, _) = detect_cni(&mut ctx, &listing, &Some(Ok("nothing here".to_string())));
    assert_eq!(kind, CniType::Unknown);
    let (kind, _) = detect_cni(&mut ctx, &listing, &None);
    assert_eq!(kind, CniType::Unknown);
    assert_eq!(detect_cni_from_logs(&Ok("wrote subnet.env".to_string())), CniType::Flannel);
    assert_eq!(detect_cni_from_logs(&Err("no logs".to_string())), CniType::Unknown);
}

#[test]
fn pod_names_are_matched_case_insensitively() {
    let mut unnamed = pod("x", "Pending", false, vec![]);
    unnamed.name = None;
    unnamed.phase = None;
    let info = detect_cni_from_k8s(&vec![
        pod("Cilium-Operator-7", "Running", true, vec![i32::MAX, 5]),
        unnamed,
        pod("calico-node-1", "Pending", false, vec![]),
    ]);
    assert_eq!(info.cni_type, CniType::Calico);
    assert_eq!(info.pods.len(), 2);
    assert_eq!(info.pods[0].name, "Cilium-Operator-7");
    assert_eq!(info.pods[0].restart_count, i32::MAX);
    assert_eq!(info.pods[1].phase, "Pending");
    assert!(!info.pods[1].ready);
}

#[test]
fn pod_health_summary_texts() {
    let healthy = CniInfo {
        cni_type: CniType::Cilium,
        pods: vec![pod_info("cilium-a", "Running", true, 2), pod_info("cilium-b", "Running", true, 3)],
    };
    assert!(are_cni_pods_healthy(&healthy));
    assert_eq!(cni_pod_health_summary(&healthy), "2/2 pods healthy (5 restarts)");
    let mixed = CniInfo {
        cni_type: CniType::Cilium,
        pods: vec![pod_info("cilium-a", "Running", true, 2), pod_info("cilium-b", "Pending", false, 0)],
    };
    assert!(!are_cni_pods_healthy(&mixed));
    assert_eq!(cni_pod_health_summary(&mixed), "1/2 pods healthy (2 restarts)");
    let none = CniInfo { cni_type: CniType::Cilium, pods: vec![] };
    assert!(!are_cni_pods_healthy(&none));
    assert_eq!(cni_pod_health_summary(&none), "No CNI pods found");
    let calm = CniInfo { cni_type: CniType::Cilium, pods: vec![pod_info("c", "Running", true, 0)] };
    assert_eq!(cni_pod_health_summary(&calm), "1/1 pods healthy (0 restarts)");
}

#[test]
fn plugin_pod_check_lists_unhealthy_pods() {
    let mixed = CniInfo {
        cni_type: CniType::Cilium,
        pods: vec![
            pod_info("cilium-a", "Running", true, 0),
            pod_info("cilium-b", "Pending", false, 0),
            pod_info("cilium-c", "Running", false, 1),
        ],
    };
    let check = check_cni_pods("Cilium Pods", &mixed);
    assert_eq!(check.status, CheckStatus::Fail);
    assert_eq!(check.message, "1/3 pods healthy (1 restarts)");
    assert_eq!(
        check.details.as_deref(),
        Some("Unhealthy pods:\n  cilium-b - Pending (ready: false)\n  cilium-c - Running (ready: false)")
    );
    let none = CniInfo { cni_type: CniType::Cilium, pods: vec![] };
    let check = check_cni_pods("Cilium Pods", &none);
    assert_eq!(check.status, CheckStatus::Warn);
    assert_eq!(check.message, "No pods found");
}

#[test]
fn plugin_specific_and_generic_checks() {
    let mut ctx = DiagnosticContext::new();
    ctx.cni_type = CniType::Calico;
    let checks = run_cni_checks(&ctx, &Err("unused".to_string()));
    assert_eq!(checks.len(), 1);
    assert_eq!(checks[0].name, "CNI (Calico)");
    assert_eq!(checks[0].message, "Detected");

    ctx.cni_info = Some(CniInfo { cni_type: CniType::Calico, pods: vec![pod_info("calico-1", "Running", true, 0)] });
    let checks = run_cni_checks(&ctx, &Err("unused".to_string()));
    assert_eq!(checks.len(), 2);
    assert_eq!(checks[0].name, "Calico Pods");
    assert_eq!(checks[0].status, CheckStatus::Pass);
    assert_eq!(checks[1].message, "OK");

    ctx.cni_type = CniType::Unknown;
    let broken = Ok(lines(5, Some(4), "failed to setup network for sandbox"));
    let checks = run_cni_checks(&ctx, &broken);
    assert_eq!(checks.len(), 1);
    assert_eq!(checks[0].status, CheckStatus::Fail);
    assert_eq!(checks[0].message, "Network setup failed");
    assert_eq!(checks[0].details.as_deref(), Some("CNI plugin failed to set up pod networking"));

    let recovered = Ok(format!("{}\nADD command succeeded", lines(3, Some(1), "network plugin is not ready")));
    assert_eq!(check_cni_health(&recovered), (true, None));
    let unreadable = check_cni_health(&Err("eof".to_string()));
    assert_eq!(unreadable, (false, Some("Could not check CNI health: eof".to_string())));
}

fn session_with(checks: Vec<DiagnosticCheck>) -> DiagnosticsComponent {
    let mut c = DiagnosticsComponent::new("n1".to_string(), "10.0.0.5".to_string(), "worker".to_string(), None);
    let mut data = c.take_data().unwrap();
    data.system_checks = checks;
    c.set_data(data);
    c
}

#[test]
fn details_only_check_opens_details_view() {
    let check = DiagnosticCheck::warn("x", "Thing", "odd").with_details("look here");
    let mut c = session_with(vec![check]);
    c.initiate_fix();
    assert!(c.show_details);
    assert!(!c.show_confirmation);
    assert!(c.pending_action.is_none());
    assert_eq!(c.details_title, "Thing");
    assert_eq!(c.details_content, "look here");
    assert_eq!(c.remediation_state(), RemediationState::Idle);
    assert!(matches!(c.apply_pending_fix(), FixDispatch::Nothing));
    assert_eq!(c.remediation_state(), RemediationState::Idle);
    c.close_details();
    assert!(!c.show_details);
}

#[test]
fn config_patch_fix_runs_through_protocol() {
    let fix = DiagnosticFix {
        description: "Patch".to_string(),
        action: FixAction::ApplyConfigPatch { yaml: "machine: {}".to_string(), requires_reboot: true },
    };
    let mut c = session_with(vec![DiagnosticCheck::fail("p", "Patch", "bad", Some(fix))]);
    c.initiate_fix();
    assert_eq!(c.remediation_state(), RemediationState::Confirming);
    let pending = c.pending_action.as_ref().unwrap();
    assert_eq!(pending.check_id, "p");
    assert_eq!(pending.preview.as_deref(), Some("machine: {}"));
    assert_eq!(c.confirmation_selection, 1);
    assert!(matches!(c.confirm(), ConfirmOutcome::Apply));
    match c.apply_pending_fix() {
        FixDispatch::ApplyConfiguration { yaml, reboot } => {
            assert_eq!(yaml, "machine: {}");
            assert!(reboot);
        }
        other => panic!("unexpected dispatch {:?}", other),
    }
    assert_eq!(c.remediation_state(), RemediationState::Applying);
    c.initiate_fix();
    assert!(c.pending_action.is_none(), "no new fix while one is applying");
    c.report_fix_result(Err("denied".to_string()));
    assert_eq!(c.remediation_state(), RemediationState::Reported);
    assert!(matches!(&c.apply_result, Some(Err(e)) if e == "denied"));
}

#[test]
fn kernel_module_fix_applies_patch_in_reboot_mode() {
    let fix = DiagnosticFix {
        description: "Load module".to_string(),
        action: FixAction::AddKernelModule("br_netfilter".to_string()),
    };
    let mut c = session_with(vec![DiagnosticCheck::fail("m", "Module", "missing", Some(fix))]);
    c.initiate_fix();
    let expected = "machine:\n  kernel:\n    modules:\n      - name: br_netfilter";
    assert_eq!(c.pending_action.as_ref().unwrap().preview.as_deref(), Some(expected));
    c.select_first_button();
    assert!(matches!(c.confirm(), ConfirmOutcome::Closed));
    assert!(c.pending_action.is_none());
    c.initiate_fix();
    match c.apply_pending_fix() {
        FixDispatch::ApplyConfiguration { yaml, reboot } => {
            assert_eq!(yaml, expected);
            assert!(reboot);
        }
        other => panic!("unexpected dispatch {:?}", other),
    }
    c.report_fix_result(Ok(vec![]));
    assert!(matches!(&c.apply_result, Some(Ok(v)) if v.is_empty()));
}

#[test]
fn host_command_fix_is_copied_not_applied() {
    let fix = DiagnosticFix {
        description: "Run".to_string(),
        action: FixAction::HostCommand { command: "talosctl upgrade".to_string(), disruptive: true },
    };
    let mut c = session_with(vec![DiagnosticCheck::fail("h", "Host", "old", Some(fix))]);
    c.initiate_fix();
    assert_eq!(c.confirmation_selection, 0);
    assert_eq!(c.pending_action.as_ref().unwrap().preview.as_deref(), Some("talosctl upgrade"));
    assert!(matches!(c.confirm(), ConfirmOutcome::CopyCommand(t) if t == "talosctl upgrade"));
    assert!(c.show_confirmation);
    c.select_second_button();
    assert!(matches!(c.confirm(), ConfirmOutcome::Closed));
    assert!(!c.show_confirmation);
    assert!(matches!(c.confirm(), ConfirmOutcome::Ignored));
}

#[test]
fn restart_fix_and_unappliable_actions() {
    let restart = DiagnosticFix { description: "r".to_string(), action: FixAction::RestartService("apid".to_string()) };
    let show = DiagnosticFix { description: "s".to_string(), action: FixAction::ShowDetails("read".to_string()) };
    let mut c = session_with(vec![
        DiagnosticCheck::fail("a", "A", "x", Some(restart)),
        DiagnosticCheck::fail("b", "B", "y", Some(show)),
    ]);
    c.initiate_fix();
    assert!(matches!(c.apply_pending_fix(), FixDispatch::RestartService(s) if s == "apid"));
    c.report_fix_result(Ok(vec![]));
    c.next_check();
    c.initiate_fix();
    assert!(c.pending_action.as_ref().unwrap().preview.is_none());
    assert!(matches!(c.apply_pending_fix(), FixDispatch::Nothing));
    assert!(!c.applying_fix);
}

#[test]
fn refresh_lifecycle_keeps_data_on_timeout() {
    let mut c = session_with(vec![DiagnosticCheck::pass("a", "A", "ok"), DiagnosticCheck::pass("b", "B", "ok")]);
    assert_eq!(c.load_state(), LoadState::Empty);
    assert!(c.start_refresh());
    assert_eq!(c.load_state(), LoadState::Loading);
    assert!(!c.start_refresh(), "a second refresh does not start while one runs");
    assert!(!c.should_auto_refresh(60));
    c.finish_refresh(None);
    assert_eq!(c.load_state(), LoadState::Error);
    assert_eq!(c.error.as_deref(), Some("Timeout fetching diagnostics"));
    assert_eq!(c.get_display_data().unwrap().system_checks.len(), 2);

    c.next_check();
    assert_eq!(c.selected_check, 1);
    assert!(c.start_refresh());
    assert!(c.error.is_none());
    c.finish_refresh(Some(CheckLists {
        system: vec![DiagnosticCheck::pass("z", "Z", "ok")],
        kubernetes: vec![],
        service: vec![],
        cni: vec![],
        addon: vec![],
    }));
    assert_eq!(c.load_state(), LoadState::Loaded);
    assert_eq!(c.selected_category, 0);
    assert_eq!(c.selected_check, 0, "clamped to the last of the one new check");
    assert_eq!(c.get_display_data().unwrap().system_checks[0].id, "z");
    assert!(c.should_auto_refresh(10));
    assert!(!c.should_auto_refresh(9));
}

#[test]
fn context_steps_of_refresh() {
    let mut c = session_with(vec![]);
    c.set_platform("container".to_string());
    c.set_cpu_count(0);
    let ctx = &c.data().unwrap().context;
    assert!(ctx.is_container);
    assert_eq!(ctx.platform, "container");
    assert_eq!(ctx.cpu_count, 1);
    c.set_platform("metal".to_string());
    c.set_cpu_count(8);
    c.apply_detection(&Err(K8sError::ApiError("forbidden".to_string())), &Some(Ok("calico".to_string())));
    let ctx = &c.data().unwrap().context;
    assert!(!ctx.is_container);
    assert_eq!(ctx.cpu_count, 8);
    assert_eq!(ctx.cni_type, CniType::Calico);
    assert_eq!(ctx.k8s_error.as_deref(), Some("K8s API error: forbidden"));
    assert_eq!(c.category_title(2), "CNI (Calico)");
    assert_eq!(c.category_title(0), "System Health");
    assert_eq!(c.category_title(7), "Unknown");
    let mut addons = DetectedAddons::default();
    addons.kyverno = true;
    c.set_detected_addons(addons);
    assert!(c.data().unwrap().detected_addons.kyverno);
}

#[test]
fn category_navigation_wraps_and_checks_clamp() {
    let mut c = session_with(vec![DiagnosticCheck::pass("a", "A", "ok")]);
    c.prev_category();
    assert_eq!(c.selected_category, 4);
    c.next_category();
    assert_eq!(c.selected_category, 0);
    c.prev_check();
    assert_eq!(c.selected_check, 0);
    c.next_check();
    assert_eq!(c.selected_check, 0);
    assert_eq!(c.current_count(), 1);
    assert_eq!(c.selected_check().unwrap().id, "a");
    c.selected_check = 3;
    assert!(c.selected_check().is_none());
    c.ensure_valid_selection();
    assert_eq!(c.selected_check, 0);
}

#[test]
fn addon_catalog_detection() {
    let found = detect_addons(&Ok(vec!["cert-manager".to_string(), "flux-system".to_string(), "kube-system".to_string()]));
    assert!(found.cert_manager && found.flux);
    assert!(!found.kyverno && !found.prometheus);
    let none = detect_addons(&Err(K8sError::KubeconfigFetch("no".to_string())));
    assert_eq!(none, DetectedAddons::default());
    assert!(run_addon_checks(&found).is_empty());
}
