//! Boot readiness signaling: the protocol by which a node reports that it is
//! fully initialized and ready for workload allocations.

use vstd::prelude::*;
use vstd::string::*;

use crate::text::joined;

verus! {

/// Well-known readiness socket path.
pub const READINESS_SOCKET_PATH: &'static str = "/run/pact/ready.sock";

/// Well-known readiness file path (alternative to the socket), created when
/// all boot phases complete.
pub const READINESS_FILE_PATH: &'static str = "/run/pact/ready";

/// Trait for readiness signaling: the init system emits readiness, the
/// workload agent waits for it.
pub trait ReadinessGate: Send + Sync {
    /// `true` once all boot phases have completed and readiness was signaled.
    fn is_ready(&self) -> bool;

    /// Wait until the node is ready; returns at once if it already is.
    fn wait_ready(&self) -> Result<(), ReadinessError>;
}

/// Errors from readiness operations.
#[derive(Debug)]
pub enum ReadinessError {
    BootFailed { reason: String },
    Timeout,
}

impl ReadinessError {
    /// The error's message.
    pub open spec fn message(&self) -> Seq<char> {
        match self {
            ReadinessError::BootFailed { reason } => "boot failed: "@ + reason@,
            ReadinessError::Timeout => "timeout waiting for readiness"@,
        }
    }

    /// Renders the error as its display text.
    pub fn to_string(&self) -> (r: String)
        ensures
            r@ == self.message(),
    {
        match self {
            ReadinessError::BootFailed { reason } => joined("boot failed: ", reason),
            ReadinessError::Timeout => String::from_str("timeout waiting for readiness"),
        }
    }
}

} // verus!
