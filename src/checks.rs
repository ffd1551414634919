//! Check runners that apply to every node: system resources, system
//! services, control-plane components, and the generic network probe.
//! Each takes what the node reported (or the error it gave) and never fails
//! as a whole: an unreachable source becomes one `Unknown` check.
use vstd::prelude::*;

use crate::text::{contains, decimal, digits, hex, recent_lines, recent_text, seq_contains};
use crate::types::{unknown_message, CheckStatus, DiagnosticCheck, DiagnosticContext, DiagnosticFix, FixAction};

verus! {

/// Bytes in one GiB.
pub const GIB: u64 = 1073741824;

/// Memory figures of a node, in bytes.
#[derive(Clone, Copy, Debug, PartialEq, Eq, Structural)]
pub struct MemInfo {
    pub mem_total: u64,
    pub mem_available: u64,
}

/// Load averages over one, five and fifteen minutes, in hundredths.
#[derive(Clone, Copy, Debug, PartialEq, Eq, Default, Structural)]
pub struct LoadAvg {
    pub load1: u64,
    pub load5: u64,
    pub load15: u64,
}

/// A system service as the node reports it.
#[derive(Clone, Debug)]
pub struct ServiceReport {
    pub id: String,
    /// Running state, such as "Running".
    pub state: String,
    /// The service's own health flag, when it reports one.
    pub healthy: Option<bool>,
}

/// Consensus-store membership of a node.
#[derive(Clone, Copy, Debug, PartialEq, Eq, Structural)]
pub struct EtcdMember {
    pub member_id: u64,
    pub leader_id: u64,
}

/// Load above which the CPU check warns, in hundredths (4.00).
pub const LOAD_WARN: u64 = 400;

/// Lines of kubelet log that the log scans look at.
pub const RECENT_LINES: usize = 20;

/// Bytes in use.
pub open spec fn used_bytes(m: MemInfo) -> int {
    if m.mem_available >= m.mem_total {
        0
    } else {
        m.mem_total - m.mem_available
    }
}

/// Memory status: fail above 90% used, warn above 80%, else pass.
pub open spec fn memory_status(m: MemInfo) -> CheckStatus {
    if used_bytes(m) * 100 > 90 * m.mem_total {
        CheckStatus::Fail
    } else if used_bytes(m) * 100 > 80 * m.mem_total {
        CheckStatus::Warn
    } else {
        CheckStatus::Pass
    }
}

/// A byte count in GiB with one decimal, rounded half up.
pub open spec fn gib_text(n: int) -> Seq<char> {
    let t = (n * 10 + GIB / 2) / (GIB as int);
    digits((t / 10) as nat, 10) + "."@ + digits((t % 10) as nat, 10)
}

/// Percentage of memory used, rounded half up (0 when the total is 0).
pub open spec fn used_percent(m: MemInfo) -> int {
    if m.mem_total == 0 {
        0
    } else {
        (used_bytes(m) * 100 + m.mem_total / 2) / (m.mem_total as int)
    }
}

/// "<used> / <total> GB (<percent>%)".
pub open spec fn memory_text(m: MemInfo) -> Seq<char> {
    gib_text(used_bytes(m)) + " / "@ + gib_text(m.mem_total as int) + " GB ("@ + digits(
        used_percent(m) as nat,
        10,
    ) + "%)"@
}

/// A value in hundredths with two decimals.
pub open spec fn hundredths_text(n: nat) -> Seq<char> {
    digits(n / 100, 10) + "."@ + if n % 100 < 10 {
        "0"@ + digits(n % 100, 10)
    } else {
        digits(n % 100, 10)
    }
}

/// "<1 min> / <5 min> / <15 min>".
pub open spec fn load_text(l: LoadAvg) -> Seq<char> {
    hundredths_text(l.load1 as nat) + " / "@ + hundredths_text(l.load5 as nat) + " / "@
        + hundredths_text(l.load15 as nat)
}

/// `c` is a check with these fields, no fix and no details.
pub open spec fn plain_check(
    c: DiagnosticCheck,
    id: Seq<char>,
    name: Seq<char>,
    message: Seq<char>,
    status: CheckStatus,
) -> bool {
    &&& c.id@ == id
    &&& c.name@ == name
    &&& c.message@ == message
    &&& c.status == status
    &&& c.fix is None
    &&& c.details is None
}

/// `c` reports that its source answered with `error`.
pub open spec fn unreachable_check(c: DiagnosticCheck, id: Seq<char>, name: Seq<char>, error: Seq<char>) -> bool {
    &&& c.id@ == id
    &&& c.name@ == name
    &&& c.message@ == unknown_message()
    &&& c.status == CheckStatus::Unknown
    &&& c.fix is None
    &&& c.details is Some
    &&& c.details->0@ == "Error: "@ + error
}

/// Number of checks that a memory reading gives.
pub open spec fn memory_count(m: Result<Option<MemInfo>, String>) -> nat {
    match m {
        Ok(None) => 0,
        _ => 1,
    }
}

/// The check that a memory reading gives.
pub open spec fn memory_check_of(c: DiagnosticCheck, m: Result<Option<MemInfo>, String>) -> bool {
    match m {
        Ok(Some(info)) => plain_check(c, "memory"@, "Memory"@, memory_text(info), memory_status(info)),
        Ok(None) => true,
        Err(e) => unreachable_check(c, "memory"@, "Memory"@, e@),
    }
}

/// Number of checks that a load reading gives.
pub open spec fn load_count(l: Result<Option<LoadAvg>, String>) -> nat {
    match l {
        Ok(None) => 0,
        _ => 1,
    }
}

/// The check that a load reading gives: warn above 4.00, else pass. The
/// threshold is fixed and not scaled by the node's CPU count.
pub open spec fn load_check_of(c: DiagnosticCheck, l: Result<Option<LoadAvg>, String>) -> bool {
    match l {
        Ok(Some(avg)) => plain_check(
            c,
            "cpu_load"@,
            "CPU Load"@,
            load_text(avg),
            if avg.load1 > LOAD_WARN { CheckStatus::Warn } else { CheckStatus::Pass },
        ),
        Ok(None) => true,
        Err(e) => unreachable_check(c, "cpu_load"@, "CPU Load"@, e@),
    }
}

fn error_details(e: &String) -> (r: String)
    ensures
        r@ == "Error: "@ + e@,
{
    let mut s = String::from_str("Error: ");
    s.append(e.as_str());
    s
}

fn gib_string(n: u64) -> (r: String)
    ensures
        r@ == gib_text(n as int),
{
    let t: u128 = (n as u128 * 10 + (GIB / 2) as u128) / GIB as u128;
    assert(t <= 0x100_0000_0000) by (nonlinear_arith)
        requires
            t == (n * 10 + 536870912) / 1073741824,
            n < 0x1_0000_0000_0000_0000,
    ;
    let mut s = decimal((t / 10) as u64);
    s.append(".");
    let d = decimal((t % 10) as u64);
    s.append(d.as_str());
    assert(s@ =~= gib_text(n as int));
    s
}

fn hundredths_string(n: u64) -> (r: String)
    ensures
        r@ == hundredths_text(n as nat),
{
    let mut s = decimal(n / 100);
    s.append(".");
    if n % 100 < 10 {
        s.append("0");
    }
    let d = decimal(n % 100);
    s.append(d.as_str());
    assert(s@ =~= hundredths_text(n as nat));
    s
}

/// Status of a memory reading: fail above 90% used, warn above 80%.
pub fn memory_status_of(info: MemInfo) -> (r: CheckStatus)
    ensures
        r == memory_status(info),
{
    let used: u128 = if info.mem_available >= info.mem_total {
        0
    } else {
        (info.mem_total - info.mem_available) as u128
    };
    let total = info.mem_total as u128;
    if used * 100 > 90 * total {
        CheckStatus::Fail
    } else if used * 100 > 80 * total {
        CheckStatus::Warn
    } else {
        CheckStatus::Pass
    }
}

/// The memory check for one reading.
pub fn memory_check(info: MemInfo) -> (r: DiagnosticCheck)
    ensures
        memory_check_of(r, Ok(Some(info))),
{
    let used: u64 = if info.mem_available >= info.mem_total {
        0
    } else {
        info.mem_total - info.mem_available
    };
    let pct: u128 = if info.mem_total == 0 {
        0
    } else {
        (used as u128 * 100 + (info.mem_total / 2) as u128) / info.mem_total as u128
    };
    proof {
        if info.mem_total > 0 {
            assert(pct <= 200) by (nonlinear_arith)
                requires
                    pct == (used * 100 + info.mem_total / 2) / (info.mem_total as int),
                    used <= info.mem_total,
                    info.mem_total > 0,
            ;
        }
    }
    let mut msg = gib_string(used);
    msg.append(" / ");
    let t = gib_string(info.mem_total);
    msg.append(t.as_str());
    msg.append(" GB (");
    let p = decimal(pct as u64);
    msg.append(p.as_str());
    msg.append("%)");
    let status = memory_status_of(info);
    let ghost text = msg@;
    let c = if status == CheckStatus::Fail {
        DiagnosticCheck::fail("memory", "Memory", msg.as_str(), None)
    } else if status == CheckStatus::Warn {
        DiagnosticCheck::warn("memory", "Memory", msg.as_str())
    } else {
        DiagnosticCheck::pass("memory", "Memory", msg.as_str())
    };
    assert(text =~= memory_text(info));
    c
}

/// The CPU-load check for one reading.
pub fn load_check(avg: LoadAvg) -> (r: DiagnosticCheck)
    ensures
        load_check_of(r, Ok(Some(avg))),
{
    let mut msg = hundredths_string(avg.load1);
    msg.append(" / ");
    let b = hundredths_string(avg.load5);
    msg.append(b.as_str());
    msg.append(" / ");
    let c = hundredths_string(avg.load15);
    msg.append(c.as_str());
    assert(msg@ =~= load_text(avg));
    if avg.load1 > LOAD_WARN {
        DiagnosticCheck::warn("cpu_load", "CPU Load", msg.as_str())
    } else {
        DiagnosticCheck::pass("cpu_load", "CPU Load", msg.as_str())
    }
}

/// System checks: memory, then CPU load. A reading that came back empty
/// gives no check; one that failed gives an `Unknown` check with the error.
pub fn run_system_checks(
    memory: &Result<Option<MemInfo>, String>,
    load: &Result<Option<LoadAvg>, String>,
) -> (r: Vec<DiagnosticCheck>)
    ensures
        r@.len() == memory_count(*memory) + load_count(*load),
        memory_count(*memory) == 1 ==> memory_check_of(r@[0], *memory),
        load_count(*load) == 1 ==> load_check_of(r@[memory_count(*memory) as int], *load),
{
    let mut checks: Vec<DiagnosticCheck> = Vec::new();
    match memory {
        Ok(Some(info)) => checks.push(memory_check(*info)),
        Ok(None) => {},
        Err(e) => {
            let d = error_details(e);
            checks.push(DiagnosticCheck::unknown("memory", "Memory").with_details(d.as_str()));
        },
    }
    match load {
        Ok(Some(avg)) => checks.push(load_check(*avg)),
        Ok(None) => {},
        Err(e) => {
            let d = error_details(e);
            checks.push(DiagnosticCheck::unknown("cpu_load", "CPU Load").with_details(d.as_str()));
        },
    }
    checks
}

/// A service counts as healthy only when it reports itself healthy.
pub open spec fn service_healthy(s: ServiceReport) -> bool {
    s.healthy == Some(true)
}

/// "<state> (healthy)" or "<state> (unhealthy)".
pub open spec fn service_text(s: ServiceReport) -> Seq<char> {
    s.state@ + if service_healthy(s) { " (healthy)"@ } else { " (unhealthy)"@ }
}

/// The check that one service gives: pass when healthy, else a failure
/// whose fix restarts the service.
pub open spec fn service_check_of(c: DiagnosticCheck, s: ServiceReport) -> bool {
    &&& c.id@ == "service_"@ + s.id@
    &&& c.name@ == s.id@
    &&& c.message@ == service_text(s)
    &&& c.details is None
    &&& if service_healthy(s) {
        c.status == CheckStatus::Pass && c.fix is None
    } else {
        &&& c.status == CheckStatus::Fail
        &&& c.fix is Some
        &&& c.fix->0.description@ == "Restart "@ + s.id@
        &&& c.fix->0.action matches FixAction::RestartService(id) && id@ == s.id@
    }
}

/// The check for one service.
pub fn service_check(s: &ServiceReport) -> (r: DiagnosticCheck)
    ensures
        service_check_of(r, *s),
{
    let healthy = match s.healthy {
        Some(h) => h,
        None => false,
    };
    let mut msg = s.state.clone();
    if healthy {
        msg.append(" (healthy)");
    } else {
        msg.append(" (unhealthy)");
    }
    let mut id = String::from_str("service_");
    id.append(s.id.as_str());
    if healthy {
        DiagnosticCheck::pass(id.as_str(), s.id.as_str(), msg.as_str())
    } else {
        let mut description = String::from_str("Restart ");
        description.append(s.id.as_str());
        let fix = DiagnosticFix { description, action: FixAction::RestartService(s.id.clone()) };
        DiagnosticCheck::fail(id.as_str(), s.id.as_str(), msg.as_str(), Some(fix))
    }
}

/// One check per reported service, in order; a failed listing gives a
/// single `Unknown` check.
pub fn run_service_checks(services: &Result<Vec<ServiceReport>, String>) -> (r: Vec<DiagnosticCheck>)
    ensures
        services is Ok ==> r@.len() == services->Ok_0@.len() && forall|i: int|
            0 <= i < r@.len() ==> service_check_of(#[trigger] r@[i], services->Ok_0@[i]),
        services is Err ==> r@.len() == 1 && unreachable_check(
            r@[0],
            "services"@,
            "Services"@,
            services->Err_0@,
        ),
{
    let mut checks: Vec<DiagnosticCheck> = Vec::new();
    match services {
        Ok(list) => {
            let mut i: usize = 0;
            while i < list.len()
                invariant
                    0 <= i <= list@.len(),
                    checks@.len() == i,
                    forall|j: int| 0 <= j < i ==> service_check_of(#[trigger] checks@[j], list@[j]),
                decreases list@.len() - i,
            {
                checks.push(service_check(&list[i]));
                i = i + 1;
            }
        },
        Err(e) => {
            let d = error_details(e);
            checks.push(DiagnosticCheck::unknown("services", "Services").with_details(d.as_str()));
        },
    }
    checks
}

/// Whether a role names a control-plane node.
pub open spec fn control_plane_role(role: Seq<char>) -> bool {
    seq_contains(role, "controlplane"@) || seq_contains(role, "control"@)
}

/// Whether the node's role is a control-plane role.
pub fn is_control_plane(ctx: &DiagnosticContext) -> (r: bool)
    ensures
        r == control_plane_role(ctx.node_role@),
{
    let role = ctx.node_role.as_str();
    contains(role, "controlplane") || contains(role, "control")
}

/// The consensus-store check: pass as leader or follower, unknown (with the
/// error in its details) when the store could not be reached.
pub open spec fn etcd_check_of(c: DiagnosticCheck, etcd: Result<Option<EtcdMember>, String>) -> bool {
    match etcd {
        Ok(Some(m)) => plain_check(
            c,
            "etcd"@,
            "Etcd"@,
            if m.member_id == m.leader_id {
                "Leader, healthy"@
            } else {
                "Follower (leader: "@ + digits(m.leader_id as nat, 16) + ")"@
            },
            CheckStatus::Pass,
        ),
        Ok(None) => true,
        Err(e) => unreachable_check(c, "etcd"@, "Etcd"@, e@),
    }
}

/// The pod-health check from kubelet log text: warn when the recent lines
/// mention a crash loop, unknown when the log could not be read.
pub open spec fn crashloop_check_of(c: DiagnosticCheck, logs: Result<String, String>) -> bool {
    match logs {
        Ok(text) => if seq_contains(recent_text(text@, RECENT_LINES as nat), "CrashLoopBackOff"@) {
            plain_check(c, "pods_crashing"@, "Pod Health"@, "CrashLoopBackOff detected"@, CheckStatus::Warn)
        } else {
            plain_check(c, "pods_crashing"@, "Pod Health"@, "No issues detected"@, CheckStatus::Pass)
        },
        Err(_) => {
            &&& c.id@ == "pods_crashing"@
            &&& c.name@ == "Pod Health"@
            &&& c.message@ == unknown_message()
            &&& c.status == CheckStatus::Unknown
            &&& c.fix is None
            &&& c.details is None
        },
    }
}

/// Number of consensus-store checks for a node.
pub open spec fn etcd_count(ctx: DiagnosticContext, etcd: Result<Option<EtcdMember>, String>) -> nat {
    if control_plane_role(ctx.node_role@) && !(etcd matches Ok(None)) {
        1
    } else {
        0
    }
}

/// Control-plane checks: the consensus store (control-plane nodes only;
/// `etcd` is not read otherwise), then crash loops in the kubelet log.
pub fn run_kubernetes_checks(
    ctx: &DiagnosticContext,
    etcd: &Result<Option<EtcdMember>, String>,
    kubelet_logs: &Result<String, String>,
) -> (r: Vec<DiagnosticCheck>)
    ensures
        r@.len() == etcd_count(*ctx, *etcd) + 1,
        etcd_count(*ctx, *etcd) == 1 ==> etcd_check_of(r@[0], *etcd),
        crashloop_check_of(r@[r@.len() - 1], *kubelet_logs),
{
    let mut checks: Vec<DiagnosticCheck> = Vec::new();
    if is_control_plane(ctx) {
        match etcd {
            Ok(Some(m)) => {
                if m.member_id == m.leader_id {
                    checks.push(DiagnosticCheck::pass("etcd", "Etcd", "Leader, healthy"));
                } else {
                    let mut msg = String::from_str("Follower (leader: ");
                    let h = hex(m.leader_id);
                    msg.append(h.as_str());
                    msg.append(")");
                    checks.push(DiagnosticCheck::pass("etcd", "Etcd", msg.as_str()));
                }
            },
            Ok(None) => {},
            Err(e) => {
                let d = error_details(e);
                checks.push(DiagnosticCheck::unknown("etcd", "Etcd").with_details(d.as_str()));
            },
        }
    }
    match kubelet_logs {
        Ok(text) => {
            let recent = recent_lines(text.as_str(), RECENT_LINES);
            if contains(recent.as_str(), "CrashLoopBackOff") {
                checks.push(
                    DiagnosticCheck::warn("pods_crashing", "Pod Health", "CrashLoopBackOff detected"),
                );
            } else {
                checks.push(DiagnosticCheck::pass("pods_crashing", "Pod Health", "No issues detected"));
            }
        },
        Err(_) => {
            checks.push(DiagnosticCheck::unknown("pods_crashing", "Pod Health"));
        },
    }
    checks
}

/// Whether kubelet log text shows the network plugin failing: a recent
/// failure marker with no success marker.
pub open spec fn network_setup_failed(text: Seq<char>) -> bool {
    let recent = recent_text(text, RECENT_LINES as nat);
    let failure = seq_contains(recent, "failed to setup network for sandbox"@) || seq_contains(
        recent,
        "network plugin is not ready"@,
    );
    let success = seq_contains(recent, "successfully setup network"@) || seq_contains(
        text,
        "ADD command succeeded"@,
    );
    failure && !success
}

/// The generic network probe's verdict on kubelet log text: whether pod
/// networking works, and why not when it does not.
pub open spec fn cni_health_of(logs: Result<String, String>, ok: bool, error: Option<String>) -> bool {
    match logs {
        Ok(text) => if network_setup_failed(text@) {
            !ok && error is Some && error->0@ == "CNI plugin failed to set up pod networking"@
        } else {
            ok && error is None
        },
        Err(e) => !ok && error is Some && error->0@ == "Could not check CNI health: "@ + e@,
    }
}

/// The generic network probe: scans kubelet log text for network-setup
/// failure and success markers.
pub fn check_cni_health(kubelet_logs: &Result<String, String>) -> (r: (bool, Option<String>))
    ensures
        cni_health_of(*kubelet_logs, r.0, r.1),
{
    match kubelet_logs {
        Ok(text) => {
            let recent = recent_lines(text.as_str(), RECENT_LINES);
            let failure = contains(recent.as_str(), "failed to setup network for sandbox")
                || contains(recent.as_str(), "network plugin is not ready");
            let success = contains(recent.as_str(), "successfully setup network")
                || contains(text.as_str(), "ADD command succeeded");
            if failure && !success {
                (false, Some(String::from_str("CNI plugin failed to set up pod networking")))
            } else {
                (true, None)
            }
        },
        Err(e) => {
            let mut s = String::from_str("Could not check CNI health: ");
            s.append(e.as_str());
            (false, Some(s))
        },
    }
}

} // verus!
