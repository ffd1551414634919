//! Diagnostics and remediation engine for a cluster operator console.
use vstd::prelude::*;

pub mod addons;
pub mod checks;
pub mod cluster;
pub mod cni;
pub mod insecure;
pub mod k8s;
pub mod logs;
pub mod network;
pub mod session;
pub mod storage;
pub mod talosctl;
pub mod text;
pub mod types;
pub mod wizard;

verus! {

} // verus!
