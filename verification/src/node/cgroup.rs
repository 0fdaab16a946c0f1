//! cgroup v2 conventions and management trait.
//!
//! Defines the shared cgroup hierarchy layout that both systems use,
//! regardless of which one creates it.

pub mod slices;

use vstd::prelude::*;
use vstd::string::*;

use crate::text::{io_error_text, joined, str_starts_with};

verus! {

/// cgroup slice ownership: which system has exclusive write access.
///
/// Each slice subtree is owned by exactly one system; no system writes to
/// another's slice except during a declared emergency.
#[derive(Debug, Clone, Copy, PartialEq, Eq, Hash, Structural)]
pub enum SliceOwner {
    /// pact-agent owns this slice (system services).
    Pact,
    /// lattice-node-agent owns this slice (workloads).
    Workload,
}

impl SliceOwner {
    /// The variant's name, as `{:?}` prints it.
    pub open spec fn name_spec(self) -> Seq<char> {
        match self {
            SliceOwner::Pact => "Pact"@,
            SliceOwner::Workload => "Workload"@,
        }
    }

    /// The variant's name, as `{:?}` prints it.
    pub fn name(&self) -> (r: &'static str)
        ensures
            r@ == self.name_spec(),
    {
        match self {
            SliceOwner::Pact => "Pact",
            SliceOwner::Workload => "Workload",
        }
    }
}

/// The owner of a cgroup path: `Pact` for paths that start with the pact
/// root slice, `Workload` for those that start with the workload root
/// slice, and none for every other path.
pub open spec fn owner_of(path: Seq<char>) -> Option<SliceOwner> {
    if slices::PACT_ROOT@.is_prefix_of(path) {
        Some(SliceOwner::Pact)
    } else if slices::WORKLOAD_ROOT@.is_prefix_of(path) {
        Some(SliceOwner::Workload)
    } else {
        None
    }
}

/// Returns the owner of a given cgroup path.
///
/// Returns `None` for paths outside the known hierarchy (e.g., root cgroup).
pub fn slice_owner(path: &str) -> (r: Option<SliceOwner>)
    ensures
        r == owner_of(path@),
        (r == Some(SliceOwner::Pact)) == slices::PACT_ROOT@.is_prefix_of(path@),
        (r == Some(SliceOwner::Workload)) == slices::WORKLOAD_ROOT@.is_prefix_of(path@),
        (r is None) == (!slices::PACT_ROOT@.is_prefix_of(path@)
            && !slices::WORKLOAD_ROOT@.is_prefix_of(path@)),
{
    proof {
        lemma_owner_by_root_prefix(path@);
    }
    if str_starts_with(path, slices::PACT_ROOT) {
        Some(SliceOwner::Pact)
    } else if str_starts_with(path, slices::WORKLOAD_ROOT) {
        Some(SliceOwner::Workload)
    } else {
        None
    }
}

/// Ownership is decided by the root slice alone: a path is owned by `Pact`
/// exactly when it starts with "pact.slice", by `Workload` exactly when it
/// starts with "workload.slice", and by nobody exactly when it starts with
/// neither.
pub proof fn lemma_owner_by_root_prefix(path: Seq<char>)
    ensures
        (owner_of(path) == Some(SliceOwner::Pact)) == slices::PACT_ROOT@.is_prefix_of(path),
        (owner_of(path) == Some(SliceOwner::Workload)) == slices::WORKLOAD_ROOT@.is_prefix_of(
            path,
        ),
        (owner_of(path) is None) == (!slices::PACT_ROOT@.is_prefix_of(path)
            && !slices::WORKLOAD_ROOT@.is_prefix_of(path)),
{
    lemma_workload_subtree_exclusive(path);
}

/// A path inside an owned subtree has the subtree's owner: whatever is
/// appended to an owned path, the owner stays the same.
pub proof fn lemma_owner_of_subtree(path: Seq<char>, suffix: Seq<char>)
    requires
        owner_of(path) is Some,
    ensures
        owner_of(path + suffix) == owner_of(path),
{
    reveal_strlit("pact.slice");
    reveal_strlit("workload.slice");
    let ext = path + suffix;
    if slices::PACT_ROOT@.is_prefix_of(path) {
        assert(slices::PACT_ROOT@.is_prefix_of(ext)) by {
            assert forall|i: int| 0 <= i < slices::PACT_ROOT@.len() implies
                slices::PACT_ROOT@[i] == ext[i] by {
                assert(path[i] == ext[i]);
            }
            assert(ext.subrange(0, slices::PACT_ROOT@.len() as int)
                =~= slices::PACT_ROOT@);
        }
    } else {
        assert(slices::WORKLOAD_ROOT@.is_prefix_of(path));
        assert(slices::WORKLOAD_ROOT@[0] == 'w');
        assert(path.subrange(0, slices::WORKLOAD_ROOT@.len() as int)[0] == path[0]);
        assert(path[0] == 'w');
        assert(ext[0] == 'w');
        assert(!slices::PACT_ROOT@.is_prefix_of(ext)) by {
            if slices::PACT_ROOT@.is_prefix_of(ext) {
                assert(ext.subrange(0, slices::PACT_ROOT@.len() as int)[0] == 'p');
            }
        }
        assert(slices::WORKLOAD_ROOT@.is_prefix_of(ext)) by {
            assert(ext.subrange(0, slices::WORKLOAD_ROOT@.len() as int)
                =~= slices::WORKLOAD_ROOT@) by {
                assert forall|i: int| 0 <= i < slices::WORKLOAD_ROOT@.len() implies
                    ext.subrange(0, slices::WORKLOAD_ROOT@.len() as int)[i]
                        == slices::WORKLOAD_ROOT@[i] by {
                    assert(path[i] == ext[i]);
                    assert(path.subrange(0, slices::WORKLOAD_ROOT@.len() as int)[i]
                        == path[i]);
                }
            }
        }
    }
}

/// The two root subtrees are disjoint: a path is owned by `Workload`
/// exactly when it lies under the workload root slice, whatever the order
/// in which the roots are tested.
pub proof fn lemma_workload_subtree_exclusive(path: Seq<char>)
    ensures
        (owner_of(path) == Some(SliceOwner::Workload)) == slices::WORKLOAD_ROOT@.is_prefix_of(
            path,
        ),
        !(slices::PACT_ROOT@.is_prefix_of(path) && slices::WORKLOAD_ROOT@.is_prefix_of(path)),
{
    reveal_strlit("pact.slice");
    reveal_strlit("workload.slice");
    if slices::PACT_ROOT@.is_prefix_of(path) && slices::WORKLOAD_ROOT@.is_prefix_of(path) {
        assert(path.subrange(0, slices::PACT_ROOT@.len() as int)[0] == path[0]);
        assert(path.subrange(0, slices::WORKLOAD_ROOT@.len() as int)[0] == path[0]);
    }
}

/// Resource limits for a cgroup scope, applied when a scope is created for
/// a service or allocation.
#[derive(Debug, Clone)]
pub struct ResourceLimits {
    /// Memory limit in bytes (maps to `memory.max`). `None` = unlimited.
    pub memory_max: Option<u64>,
    /// CPU weight (1–10000, maps to `cpu.weight`). `None` = default (100).
    pub cpu_weight: Option<u16>,
    /// IO max in bytes/sec. `None` = unlimited.
    pub io_max: Option<u64>,
}

impl Default for ResourceLimits {
    /// No limits: every field is unset.
    fn default() -> (r: Self)
        ensures
            r.memory_max is None,
            r.cpu_weight is None,
            r.io_max is None,
    {
        ResourceLimits { memory_max: None, cpu_weight: None, io_max: None }
    }
}

/// Opaque handle to a created cgroup scope.
///
/// Returned by [`CgroupManager::create_scope`] and passed to process spawn
/// for placement.
#[derive(Debug, Clone)]
pub struct CgroupHandle {
    /// Full cgroup path (e.g., `/sys/fs/cgroup/pact.slice/gpu.slice/nvidia-persistenced`).
    pub path: String,
}

/// Metrics read from a cgroup.
#[derive(Debug, Clone)]
pub struct CgroupMetrics {
    /// Current memory usage in bytes (`memory.current`).
    pub memory_current: u64,
    /// Memory limit in bytes (`memory.max`). `None` if unlimited.
    pub memory_max: Option<u64>,
    /// Total CPU usage in microseconds (`cpu.stat` → `usage_usec`).
    pub cpu_usage_usec: u64,
    /// Number of processes in the cgroup (`cgroup.procs` line count).
    pub nr_processes: u32,
}

impl Default for CgroupMetrics {
    /// All counters zero, no memory limit.
    fn default() -> (r: Self)
        ensures
            r.memory_current == 0,
            r.memory_max is None,
            r.cpu_usage_usec == 0,
            r.nr_processes == 0,
    {
        CgroupMetrics { memory_current: 0, memory_max: None, cpu_usage_usec: 0, nr_processes: 0 }
    }
}

/// Trait for cgroup hierarchy management.
///
/// Both systems implement this. Ownership enforcement and the emergency
/// override are the implementer's responsibility; callers create a scope
/// before spawning, destroy it on spawn failure, and may read metrics of
/// any path.
pub trait CgroupManager: Send + Sync {
    /// Create the top-level slice hierarchy (idempotent, called once at boot).
    fn create_hierarchy(&self) -> Result<(), CgroupError>;

    /// Create a scoped cgroup under `parent_slice` with the given `name` and
    /// resource limits, returning a handle for process placement.
    fn create_scope(&self, parent_slice: &str, name: &str, limits: &ResourceLimits) -> Result<
        CgroupHandle,
        CgroupError,
    >;

    /// Kill all processes in a scope and release it.
    fn destroy_scope(&self, handle: &CgroupHandle) -> Result<(), CgroupError>;

    /// Read metrics from any cgroup path (shared read, no ownership check).
    fn read_metrics(&self, path: &str) -> Result<CgroupMetrics, CgroupError>;

    /// Check if a scope is empty (no processes).
    fn is_scope_empty(&self, handle: &CgroupHandle) -> Result<bool, CgroupError>;
}

/// Errors from cgroup operations.
#[derive(Debug)]
pub enum CgroupError {
    CreationFailed { reason: String },
    KillFailed { path: String, reason: String },
    NotFound { path: String },
    PermissionDenied { path: String, owner: SliceOwner },
    Io(std::io::Error),
}

impl CgroupError {
    /// The error's message, for every variant but `Io`, whose text comes
    /// from the operating system.
    pub open spec fn message(&self) -> Seq<char> {
        match self {
            CgroupError::CreationFailed { reason } => "cgroup creation failed: "@ + reason@,
            CgroupError::KillFailed { path, reason } => "cgroup.kill failed for "@ + path@ + ": "@
                + reason@,
            CgroupError::NotFound { path } => "cgroup path not found: "@ + path@,
            CgroupError::PermissionDenied { path, owner } => "permission denied: "@ + path@
                + " owned by "@ + owner.name_spec(),
            CgroupError::Io(_) => "cgroup I/O error: "@,
        }
    }

    /// Renders the error as its display text.
    pub fn to_string(&self) -> (r: String)
        ensures
            self is Io ==> self.message().is_prefix_of(r@),
            !(self is Io) ==> r@ == self.message(),
    {
        match self {
            CgroupError::CreationFailed { reason } => joined("cgroup creation failed: ", reason),
            CgroupError::KillFailed { path, reason } => {
                let mut s = joined("cgroup.kill failed for ", path);
                s.append(": ");
                s.append(reason.as_str());
                s
            },
            CgroupError::NotFound { path } => joined("cgroup path not found: ", path),
            CgroupError::PermissionDenied { path, owner } => {
                let mut s = joined("permission denied: ", path);
                s.append(" owned by ");
                s.append(owner.name());
                s
            },
            CgroupError::Io(e) => {
                let text = io_error_text(e);
                let r = joined("cgroup I/O error: ", text.as_str());
                assert(self.message().is_prefix_of(r@)) by {
                    assert(r@.subrange(0, self.message().len() as int) =~= self.message());
                }
                r
            },
        }
    }
}

} // verus!
