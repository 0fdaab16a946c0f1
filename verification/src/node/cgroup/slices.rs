//! Well-known cgroup slice paths.
//!
//! Both systems use these constants so that the hierarchy is the same
//! regardless of which system creates the slices.

use vstd::prelude::*;

verus! {

/// Root slice for pact-managed system services.
pub const PACT_ROOT: &'static str = "pact.slice";

/// Infrastructure services: chronyd, dbus-daemon, rasdaemon.
pub const PACT_INFRA: &'static str = "pact.slice/infra.slice";

/// Network services: `cxi_rh` instances.
pub const PACT_NETWORK: &'static str = "pact.slice/network.slice";

/// GPU services: nvidia-persistenced, nv-hostengine.
pub const PACT_GPU: &'static str = "pact.slice/gpu.slice";

/// Audit services: auditd, audit-forwarder (regulated vClusters only).
pub const PACT_AUDIT: &'static str = "pact.slice/audit.slice";

/// Root slice for lattice-managed workload allocations.
pub const WORKLOAD_ROOT: &'static str = "workload.slice";

} // verus!
