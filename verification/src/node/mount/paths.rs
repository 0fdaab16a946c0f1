//! Well-known mount paths.

use vstd::prelude::*;

verus! {

/// Base directory for uenv `SquashFS` mounts.
pub const UENV_MOUNT_BASE: &'static str = "/run/pact/uenv";

/// Base directory for allocation working directories.
pub const WORKDIR_BASE: &'static str = "/run/pact/workdir";

/// Base directory for data staging mounts (NFS, S3).
pub const DATA_STAGE_BASE: &'static str = "/run/pact/data";

} // verus!
