//! Node-level resource management conventions: cgroup v2 slices and
//! scopes, namespace handoff, refcounted mounts and boot readiness.
//!
//! Traits and types only; both node agents implement the traits
//! independently using the same conventions.

pub mod cgroup;
pub mod mount;
pub mod namespace;
pub mod readiness;

pub use cgroup::{
    CgroupError, CgroupHandle, CgroupManager, CgroupMetrics, ResourceLimits, SliceOwner,
};
pub use mount::{MountError, MountHandle, MountManager};
pub use namespace::{
    NamespaceConsumer, NamespaceError, NamespaceProvider, NamespaceRequest, NamespaceResponse,
    NamespaceType,
};
pub use readiness::{ReadinessError, ReadinessGate};
