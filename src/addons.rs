//! Add-on detection: namespace names matched against a fixed catalog of
//! known add-ons. There is no log-based fallback for add-ons: without the
//! management API nothing is detected.
use vstd::prelude::*;

use crate::k8s::K8sError;
use crate::text::{seq_starts_with, starts_with};
use crate::types::DiagnosticCheck;

verus! {

/// Add-ons found in the cluster.
#[derive(Clone, Copy, Debug, PartialEq, Eq, Default, Structural)]
pub struct DetectedAddons {
    pub cert_manager: bool,
    pub external_secrets: bool,
    pub kyverno: bool,
    pub ingress_nginx: bool,
    pub traefik: bool,
    pub prometheus: bool,
    pub argocd: bool,
    pub flux: bool,
}

impl DetectedAddons {
    /// No add-on detected.
    pub fn none() -> (r: DetectedAddons)
        ensures
            r == spec_no_addons(),
    {
        DetectedAddons {
            cert_manager: false,
            external_secrets: false,
            kyverno: false,
            ingress_nginx: false,
            traefik: false,
            prometheus: false,
            argocd: false,
            flux: false,
        }
    }
}

/// The value with no add-on detected.
pub open spec fn spec_no_addons() -> DetectedAddons {
    DetectedAddons {
        cert_manager: false,
        external_secrets: false,
        kyverno: false,
        ingress_nginx: false,
        traefik: false,
        prometheus: false,
        argocd: false,
        flux: false,
    }
}

/// Some namespace name starts with `prefix`.
pub open spec fn some_namespace(names: Seq<String>, prefix: Seq<char>) -> bool {
    exists|i: int| 0 <= i < names.len() && seq_starts_with(#[trigger] names[i]@, prefix)
}

/// What a namespace listing shows of the catalog.
pub open spec fn addons_in(names: Seq<String>) -> DetectedAddons {
    DetectedAddons {
        cert_manager: some_namespace(names, "cert-manager"@),
        external_secrets: some_namespace(names, "external-secrets"@),
        kyverno: some_namespace(names, "kyverno"@),
        ingress_nginx: some_namespace(names, "ingress-nginx"@),
        traefik: some_namespace(names, "traefik"@),
        prometheus: some_namespace(names, "prometheus"@) || some_namespace(names, "monitoring"@),
        argocd: some_namespace(names, "argocd"@),
        flux: some_namespace(names, "flux-system"@),
    }
}

fn any_starts_with(names: &Vec<String>, prefix: &str) -> (r: bool)
    ensures
        r == some_namespace(names@, prefix@),
{
    let mut i: usize = 0;
    while i < names.len()
        invariant
            0 <= i <= names@.len(),
            forall|j: int| 0 <= j < i ==> !seq_starts_with(#[trigger] names@[j]@, prefix@),
        decreases names@.len() - i,
    {
        if starts_with(names[i].as_str(), prefix) {
            return true;
        }
        i = i + 1;
    }
    false
}

/// Detects add-ons from the cluster's namespace names; nothing is detected
/// when the management API could not list them.
pub fn detect_addons(namespaces: &Result<Vec<String>, K8sError>) -> (r: DetectedAddons)
    ensures
        namespaces is Ok ==> r == addons_in(namespaces->Ok_0@),
        namespaces is Err ==> r == spec_no_addons(),
{
    match namespaces {
        Ok(names) => DetectedAddons {
            cert_manager: any_starts_with(names, "cert-manager"),
            external_secrets: any_starts_with(names, "external-secrets"),
            kyverno: any_starts_with(names, "kyverno"),
            ingress_nginx: any_starts_with(names, "ingress-nginx"),
            traefik: any_starts_with(names, "traefik"),
            prometheus: any_starts_with(names, "prometheus") || any_starts_with(names, "monitoring"),
            argocd: any_starts_with(names, "argocd"),
            flux: any_starts_with(names, "flux-system"),
        },
        Err(_) => DetectedAddons::none(),
    }
}

/// Add-on checks. Checks are only ever emitted for detected add-ons; no
/// add-on has checks of its own yet, so the list is empty.
pub fn run_addon_checks(addons: &DetectedAddons) -> (r: Vec<DiagnosticCheck>)
    ensures
        r@.len() == 0,
{
    Vec::new()
}

} // verus!
