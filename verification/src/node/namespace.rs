//! Namespace handoff protocol: passing Linux namespace file descriptors from
//! the init agent (provider) to the workload agent (consumer) over a unix
//! socket with `SCM_RIGHTS`.

use vstd::prelude::*;

use crate::text::{io_error_text, joined};

verus! {

/// Well-known socket path for namespace handoff.
pub const HANDOFF_SOCKET_PATH: &'static str = "/run/pact/handoff.sock";

/// Namespace types that can be created and handed off.
#[derive(Debug, Clone, Copy, PartialEq, Eq, Hash, Structural)]
pub enum NamespaceType {
    /// PID namespace — isolated process ID space per allocation.
    Pid,
    /// Network namespace — isolated network stack per allocation.
    Net,
    /// Mount namespace — isolated mount table per allocation.
    Mount,
}

/// Request for allocation namespaces, sent over the handoff socket.
#[derive(Debug, Clone)]
pub struct NamespaceRequest {
    /// Allocation identifier (from the scheduler).
    pub allocation_id: String,
    /// Which namespaces to create.
    pub namespaces: Vec<NamespaceType>,
    /// Optional uenv image to mount inside the mount namespace.
    pub uenv_image: Option<String>,
}

/// Response with namespace metadata; the descriptors themselves travel as
/// `SCM_RIGHTS` ancillary data in the order of `fd_types`.
#[derive(Debug, Clone)]
pub struct NamespaceResponse {
    /// Allocation identifier (echoed from the request).
    pub allocation_id: String,
    /// Namespace types in the order their FDs are attached.
    pub fd_types: Vec<NamespaceType>,
    /// Mount point for the uenv bind-mount inside the mount namespace.
    pub uenv_mount_path: Option<String>,
}

/// Notification that an allocation has ended (its cgroup became empty, or
/// the workload agent knows it ended).
#[derive(Debug, Clone)]
pub struct AllocationEnded {
    /// Allocation identifier.
    pub allocation_id: String,
}

/// Namespace handoff provider: creates namespaces for allocations and makes
/// their FDs available to the handoff socket.
pub trait NamespaceProvider: Send + Sync {
    /// Create namespaces for an allocation.
    fn create_namespaces(&self, request: &NamespaceRequest) -> Result<
        NamespaceResponse,
        NamespaceError,
    >;

    /// Release namespaces (and bind-mounts) of a completed allocation.
    fn release_namespaces(&self, allocation_id: &str) -> Result<(), NamespaceError>;
}

/// Namespace handoff consumer: requests namespaces from the provider and
/// falls back to creating its own when the provider is unreachable.
pub trait NamespaceConsumer: Send + Sync {
    /// Request namespaces from the provider.
    fn request_namespaces(&self, request: &NamespaceRequest) -> Result<
        NamespaceResponse,
        NamespaceError,
    >;
}

/// Errors from namespace operations.
#[derive(Debug)]
pub enum NamespaceError {
    SocketUnavailable { reason: String },
    CreationFailed { reason: String },
    AllocationNotFound { allocation_id: String },
    FdPassing(std::io::Error),
}

impl NamespaceError {
    /// The error's message, for every variant but `FdPassing`, whose text
    /// comes from the operating system.
    pub open spec fn message(&self) -> Seq<char> {
        match self {
            NamespaceError::SocketUnavailable { reason } => "handoff socket unavailable: "@
                + reason@,
            NamespaceError::CreationFailed { reason } => "namespace creation failed: "@ + reason@,
            NamespaceError::AllocationNotFound { allocation_id } => "allocation not found: "@
                + allocation_id@,
            NamespaceError::FdPassing(_) => "FD passing failed: "@,
        }
    }

    /// Renders the error as its display text.
    pub fn to_string(&self) -> (r: String)
        ensures
            self is FdPassing ==> self.message().is_prefix_of(r@),
            !(self is FdPassing) ==> r@ == self.message(),
    {
        match self {
            NamespaceError::SocketUnavailable { reason } => joined(
                "handoff socket unavailable: ",
                reason,
            ),
            NamespaceError::CreationFailed { reason } => joined(
                "namespace creation failed: ",
                reason,
            ),
            NamespaceError::AllocationNotFound { allocation_id } => joined(
                "allocation not found: ",
                allocation_id,
            ),
            NamespaceError::FdPassing(e) => {
                let text = io_error_text(e);
                let r = joined("FD passing failed: ", text.as_str());
                assert(r@.subrange(0, self.message().len() as int) =~= self.message());
                r
            },
        }
    }
}

} // verus!
