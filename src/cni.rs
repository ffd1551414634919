//! Network-plugin detection and the plugin-specific checks.
//!
//! Detection tries the management API's pod listing first; only when that is
//! unavailable or finds no plugin pod does it scan kubelet log text.
use vstd::prelude::*;

use crate::checks::{check_cni_health, network_setup_failed};
use crate::k8s::{
    all_pods_healthy, detect_cni_from_k8s, k8s_error_text, listed_plugin, plugin_pods_of,
    pod_healthy, pod_summary_text, CniInfo, CniPodInfo, K8sError, PodRecord,
};
use crate::text::{contains, seq_contains};
use crate::types::{CheckStatus, CniType, DiagnosticCheck, DiagnosticContext};

verus! {

/// The plugin that kubelet log text points to, markers tried in a fixed
/// order: Flannel, then Cilium, then Calico.
pub open spec fn plugin_in_logs(text: Seq<char>) -> CniType {
    if seq_contains(text, "flannel"@) || seq_contains(text, "subnet.env"@) {
        CniType::Flannel
    } else if seq_contains(text, "cilium"@) {
        CniType::Cilium
    } else if seq_contains(text, "calico"@) || seq_contains(text, "felix"@) {
        CniType::Calico
    } else {
        CniType::Unknown
    }
}

/// What the log fallback reports: `Unknown` when the log is missing.
pub open spec fn fallback_plugin(logs: Option<Result<String, String>>) -> CniType {
    match logs {
        Some(Ok(text)) => plugin_in_logs(text@),
        _ => CniType::Unknown,
    }
}

/// Whether the pod listing settles detection on its own.
pub open spec fn listing_decides(listing: Result<Vec<PodRecord>, K8sError>) -> bool {
    listing is Ok && listed_plugin(listing->Ok_0@) != CniType::Unknown
}

/// Detects the plugin from kubelet log text (the fallback path).
pub fn detect_cni_from_logs(logs: &Result<String, String>) -> (r: CniType)
    ensures
        r == fallback_plugin(Some(*logs)),
{
    match logs {
        Ok(text) => {
            let t = text.as_str();
            if contains(t, "flannel") || contains(t, "subnet.env") {
                CniType::Flannel
            } else if contains(t, "cilium") {
                CniType::Cilium
            } else if contains(t, "calico") || contains(t, "felix") {
                CniType::Calico
            } else {
                CniType::Unknown
            }
        },
        Err(_) => CniType::Unknown,
    }
}

/// Whether the log fallback is needed for this listing (the caller fetches
/// the log only then).
pub fn needs_log_fallback(listing: &Result<Vec<PodRecord>, K8sError>) -> (r: bool)
    ensures
        r == !listing_decides(*listing),
{
    match listing {
        Ok(pods) => {
            let info = detect_cni_from_k8s(pods);
            info.cni_type == CniType::Unknown
        },
        Err(_) => true,
    }
}

/// Detects the network plugin. When the pod listing names a plugin, that
/// plugin and its pods are returned and the log is not read. Otherwise the
/// log decides and no pod information is returned. The context's
/// management-API note records why the listing was unavailable (and is
/// cleared when it was available); nothing else in the context changes.
pub fn detect_cni(
    ctx: &mut DiagnosticContext,
    listing: &Result<Vec<PodRecord>, K8sError>,
    kubelet_logs: &Option<Result<String, String>>,
) -> (r: (CniType, Option<CniInfo>))
    ensures
        listing_decides(*listing) ==> {
            &&& r.0 == listed_plugin(listing->Ok_0@)
            &&& r.1 is Some
            &&& r.1->0.cni_type == r.0
            &&& plugin_pods_of(r.1->0.pods@, listing->Ok_0@)
        },
        !listing_decides(*listing) ==> r.0 == fallback_plugin(*kubelet_logs) && r.1 is None,
        listing is Err ==> final(ctx).k8s_error is Some && final(ctx).k8s_error->0@
            == k8s_error_text(listing->Err_0),
        listing is Ok ==> final(ctx).k8s_error is None,
        *final(ctx) == (DiagnosticContext { k8s_error: final(ctx).k8s_error, ..*old(ctx) }),
{
    match listing {
        Ok(pods) => {
            ctx.k8s_error = None;
            let info = detect_cni_from_k8s(pods);
            if info.cni_type != CniType::Unknown {
                return (info.cni_type, Some(info));
            }
        },
        Err(e) => {
            ctx.k8s_error = Some(e.message());
        },
    }
    match kubelet_logs {
        Some(logs) => (detect_cni_from_logs(logs), None),
        None => (CniType::Unknown, None),
    }
}

/// "  <name> - <phase> (ready: <flag>)".
pub open spec fn pod_line(p: CniPodInfo) -> Seq<char> {
    "  "@ + p.name@ + " - "@ + p.phase@ + " (ready: "@ + if p.ready { "true"@ } else { "false"@ }
        + ")"@
}

/// One line per unhealthy pod, in order, separated by newlines.
pub open spec fn unhealthy_lines(pods: Seq<CniPodInfo>) -> Seq<char>
    decreases pods.len(),
{
    if pods.len() == 0 {
        Seq::empty()
    } else {
        let prev = unhealthy_lines(pods.drop_last());
        if pod_healthy(pods.last()) {
            prev
        } else if prev.len() == 0 {
            pod_line(pods.last())
        } else {
            prev + "\n"@ + pod_line(pods.last())
        }
    }
}

/// The pod check of a plugin: warn when no pods are known, pass when all
/// are healthy, else fail listing the unhealthy ones.
pub open spec fn pods_check_of(c: DiagnosticCheck, name: Seq<char>, pods: Seq<CniPodInfo>) -> bool {
    &&& c.id@ == "cni_pods"@
    &&& c.name@ == name
    &&& c.fix is None
    &&& if pods.len() == 0 {
        &&& c.status == CheckStatus::Warn
        &&& c.message@ == "No pods found"@
        &&& c.details is Some
        &&& c.details->0@ == "Could not find CNI pods in kube-system namespace."@
    } else if all_pods_healthy(pods) {
        c.status == CheckStatus::Pass && c.message@ == pod_summary_text(pods) && c.details is None
    } else {
        &&& c.status == CheckStatus::Fail
        &&& c.message@ == pod_summary_text(pods)
        &&& c.details is Some
        &&& c.details->0@ == "Unhealthy pods:\n"@ + unhealthy_lines(pods)
    }
}

fn pod_line_text(p: &CniPodInfo) -> (r: String)
    ensures
        r@ == pod_line(*p),
{
    let mut s = String::from_str("  ");
    s.append(p.name.as_str());
    s.append(" - ");
    s.append(p.phase.as_str());
    s.append(" (ready: ");
    if p.ready {
        s.append("true");
    } else {
        s.append("false");
    }
    s.append(")");
    s
}

fn unhealthy_text(pods: &Vec<CniPodInfo>) -> (r: String)
    ensures
        r@ == unhealthy_lines(pods@),
{
    let mut s = String::new();
    let mut i: usize = 0;
    let mut empty = true;
    let running = String::from_str("Running");
    while i < pods.len()
        invariant
            0 <= i <= pods@.len(),
            running@ == "Running"@,
            empty == (s@.len() == 0),
            s@ == unhealthy_lines(pods@.subrange(0, i as int)),
        decreases pods@.len() - i,
    {
        assert(pods@.subrange(0, i + 1).drop_last() =~= pods@.subrange(0, i as int));
        let p = &pods[i];
        if !(p.phase == running && p.ready) {
            proof { reveal_strlit("  "); }
            let line = pod_line_text(p);
            if !empty {
                s.append("\n");
            }
            s.append(line.as_str());
            empty = false;
        }
        i = i + 1;
    }
    assert(pods@.subrange(0, pods@.len() as int) =~= pods@);
    s
}

/// The pod check of a plugin, from what the management API showed.
pub fn check_cni_pods(name: &str, info: &CniInfo) -> (r: DiagnosticCheck)
    ensures
        pods_check_of(r, name@, info.pods@),
{
    if info.pods.len() == 0 {
        return DiagnosticCheck::warn("cni_pods", name, "No pods found").with_details(
            "Could not find CNI pods in kube-system namespace.",
        );
    }
    let healthy = info.are_pods_healthy();
    let summary = info.pod_health_summary();
    if healthy {
        DiagnosticCheck::pass("cni_pods", name, summary.as_str())
    } else {
        let mut details = String::from_str("Unhealthy pods:\n");
        let lines = unhealthy_text(&info.pods);
        details.append(lines.as_str());
        DiagnosticCheck::fail("cni_pods", name, summary.as_str(), None).with_details(details.as_str())
    }
}

/// Display name of a plugin's pod check and of its summary check.
pub open spec fn plugin_names(t: CniType) -> (Seq<char>, Seq<char>) {
    match t {
        CniType::Flannel => ("Flannel Pods"@, "CNI (Flannel)"@),
        CniType::Cilium => ("Cilium Pods"@, "CNI (Cilium)"@),
        _ => ("Calico Pods"@, "CNI (Calico)"@),
    }
}

/// The checks for a detected plugin: its pod check when pods are known, then
/// a passing summary check ("OK" with pod data, "Detected" without).
pub open spec fn plugin_checks_of(r: Seq<DiagnosticCheck>, ctx: DiagnosticContext) -> bool {
    let (pods_name, cni_name) = plugin_names(ctx.cni_type);
    match ctx.cni_info {
        Some(info) => {
            &&& r.len() == 2
            &&& pods_check_of(r[0], pods_name, info.pods@)
            &&& r[1].id@ == "cni"@ && r[1].name@ == cni_name && r[1].message@ == "OK"@
            &&& r[1].status == CheckStatus::Pass && r[1].fix is None && r[1].details is None
        },
        None => {
            &&& r.len() == 1
            &&& r[0].id@ == "cni"@ && r[0].name@ == cni_name && r[0].message@ == "Detected"@
            &&& r[0].status == CheckStatus::Pass && r[0].fix is None && r[0].details is None
        },
    }
}

/// The generic probe's single check: pass when pod networking works, else
/// a failure explaining why.
pub open spec fn generic_checks_of(r: Seq<DiagnosticCheck>, logs: Result<String, String>) -> bool {
    &&& r.len() == 1
    &&& r[0].id@ == "cni"@ && r[0].name@ == "CNI"@ && r[0].fix is None
    &&& match logs {
        Ok(text) => if network_setup_failed(text@) {
            &&& r[0].status == CheckStatus::Fail
            &&& r[0].message@ == "Network setup failed"@
            &&& r[0].details is Some
            &&& r[0].details->0@ == "CNI plugin failed to set up pod networking"@
        } else {
            r[0].status == CheckStatus::Pass && r[0].message@ == "OK"@ && r[0].details is None
        },
        Err(e) => {
            &&& r[0].status == CheckStatus::Fail
            &&& r[0].message@ == "Network setup failed"@
            &&& r[0].details is Some
            &&& r[0].details->0@ == "Could not check CNI health: "@ + e@
        },
    }
}

fn run_plugin_checks(ctx: &DiagnosticContext, pods_name: &str, cni_name: &str) -> (r: Vec<DiagnosticCheck>)
    requires
        ctx.cni_type == CniType::Flannel || ctx.cni_type == CniType::Cilium || ctx.cni_type
            == CniType::Calico,
        (pods_name@, cni_name@) == plugin_names(ctx.cni_type),
    ensures
        plugin_checks_of(r@, *ctx),
{
    let mut checks: Vec<DiagnosticCheck> = Vec::new();
    match &ctx.cni_info {
        Some(info) => {
            checks.push(check_cni_pods(pods_name, info));
            checks.push(DiagnosticCheck::pass("cni", cni_name, "OK"));
        },
        None => {
            checks.push(DiagnosticCheck::pass("cni", cni_name, "Detected"));
        },
    }
    checks
}

fn run_generic_cni_checks(kubelet_logs: &Result<String, String>) -> (r: Vec<DiagnosticCheck>)
    ensures
        generic_checks_of(r@, *kubelet_logs),
{
    let (ok, error) = check_cni_health(kubelet_logs);
    let mut checks: Vec<DiagnosticCheck> = Vec::new();
    if ok {
        checks.push(DiagnosticCheck::pass("cni", "CNI", "OK"));
    } else {
        let details = match error {
            Some(e) => e,
            None => String::from_str("Unknown error"),
        };
        checks.push(
            DiagnosticCheck::fail("cni", "CNI", "Network setup failed", None).with_details(
                details.as_str(),
            ),
        );
    }
    checks
}

/// Network-plugin checks for the detected plugin; with no plugin known, the
/// generic probe over kubelet log text (which is read only then).
pub fn run_cni_checks(ctx: &DiagnosticContext, kubelet_logs: &Result<String, String>) -> (r: Vec<
    DiagnosticCheck,
>)
    ensures
        (ctx.cni_type == CniType::Flannel || ctx.cni_type == CniType::Cilium || ctx.cni_type
            == CniType::Calico) ==> plugin_checks_of(r@, *ctx),
        (ctx.cni_type == CniType::Unknown || ctx.cni_type == CniType::NoPlugin) ==> generic_checks_of(
            r@,
            *kubelet_logs,
        ),
{
    match ctx.cni_type {
        CniType::Flannel => run_plugin_checks(ctx, "Flannel Pods", "CNI (Flannel)"),
        CniType::Cilium => run_plugin_checks(ctx, "Cilium Pods", "CNI (Cilium)"),
        CniType::Calico => run_plugin_checks(ctx, "Calico Pods", "CNI (Calico)"),
        CniType::Unknown | CniType::NoPlugin => run_generic_cni_checks(kubelet_logs),
    }
}

} // verus!
