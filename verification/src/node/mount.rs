//! Mount management conventions and trait.
//!
//! Refcounted mount management for uenv `SquashFS` images: several
//! allocations can share one mount, with lazy unmount after a configurable
//! hold time for cache locality.

pub mod paths;

use vstd::prelude::*;
use vstd::string::*;

use crate::text::{io_error_text, joined};

verus! {

/// Handle to an acquired mount.
///
/// Returned by [`MountManager::acquire_mount`]; the holder calls
/// [`MountManager::release_mount`] when the allocation no longer needs it.
#[derive(Debug, Clone)]
pub struct MountHandle {
    /// Path to the source image (e.g., `/images/pytorch-2.5.sqfs`).
    pub image_path: String,
    /// Where the image is mounted (e.g., `/run/pact/uenv/pytorch-2.5`).
    pub mount_point: String,
}

/// Default hold time in seconds before unmounting after refcount reaches zero.
pub const DEFAULT_HOLD_TIME_SECS: u64 = 60;

/// Trait for refcounted mount management.
///
/// The refcount equals the number of active allocations using the mount;
/// unmount is lazy with a hold time that an emergency force overrides; on
/// agent restart the refcounts are rebuilt from the kernel mount table and
/// the active allocations.
pub trait MountManager: Send + Sync {
    /// Acquire a reference to a uenv mount, mounting the image on the first
    /// reference.
    fn acquire_mount(&self, image_path: &str) -> Result<MountHandle, MountError>;

    /// Release a reference; at zero the cache hold timer starts.
    fn release_mount(&self, handle: &MountHandle) -> Result<(), MountError>;

    /// Force-unmount regardless of refcount or hold timer (emergency only).
    fn force_unmount(&self, image_path: &str) -> Result<(), MountError>;

    /// Reconstruct refcounts from the kernel mount table and the given
    /// active allocation IDs.
    fn reconstruct_state(&self, active_allocations: &[String]) -> Result<(), MountError>;
}

/// Errors from mount operations.
#[derive(Debug)]
pub enum MountError {
    MountFailed { image_path: String, reason: String },
    UnmountFailed { mount_point: String, reason: String },
    RefcountInconsistency { image_path: String, detail: String },
    Io(std::io::Error),
}

impl MountError {
    /// The error's message, for every variant but `Io`, whose text comes
    /// from the operating system.
    pub open spec fn message(&self) -> Seq<char> {
        match self {
            MountError::MountFailed { image_path, reason } => "mount failed for "@ + image_path@
                + ": "@ + reason@,
            MountError::UnmountFailed { mount_point, reason } => "unmount failed for "@
                + mount_point@ + ": "@ + reason@,
            MountError::RefcountInconsistency { image_path, detail } =>
                "refcount inconsistency for "@ + image_path@ + ": "@ + detail@,
            MountError::Io(_) => "mount I/O error: "@,
        }
    }

    /// Renders the error as its display text.
    pub fn to_string(&self) -> (r: String)
        ensures
            self is Io ==> self.message().is_prefix_of(r@),
            !(self is Io) ==> r@ == self.message(),
    {
        match self {
            MountError::MountFailed { image_path, reason } => {
                let mut s = joined("mount failed for ", image_path);
                s.append(": ");
                s.append(reason.as_str());
                s
            },
            MountError::UnmountFailed { mount_point, reason } => {
                let mut s = joined("unmount failed for ", mount_point);
                s.append(": ");
                s.append(reason.as_str());
                s
            },
            MountError::RefcountInconsistency { image_path, detail } => {
                let mut s = joined("refcount inconsistency for ", image_path);
                s.append(": ");
                s.append(detail.as_str());
                s
            },
            MountError::Io(e) => {
                let text = io_error_text(e);
                let r = joined("mount I/O error: ", text.as_str());
                assert(r@.subrange(0, self.message().len() as int) =~= self.message());
                r
            },
        }
    }
}

} // verus!
