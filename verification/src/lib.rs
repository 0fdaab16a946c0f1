//! Shared infrastructure for HPC node agents: audit events and compliance
//! policies, workload identity, and node-level resource conventions
//! (cgroup slices, mounts, namespace handoff, readiness).

pub mod audit;
pub mod clock;
pub mod identity;
pub mod node;
pub mod text;
