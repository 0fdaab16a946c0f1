use hpc_core::node::mount::paths;
use hpc_core::node::mount::{MountError, MountHandle, DEFAULT_HOLD_TIME_SECS};
use hpc_core::node::namespace::{AllocationEnded, HANDOFF_SOCKET_PATH};
use hpc_core::node::readiness::{READINESS_FILE_PATH, READINESS_SOCKET_PATH};
use hpc_core::node::{NamespaceError, NamespaceRequest, NamespaceResponse, NamespaceType, ReadinessError};

#[test]
fn mount_well_known_paths() {
    assert!(paths::UENV_MOUNT_BASE.starts_with("/run/pact/"));
    assert!(paths::WORKDIR_BASE.starts_with("/run/pact/"));
    assert!(paths::DATA_STAGE_BASE.starts_with("/run/pact/"));
}

#[test]
fn readiness_well_known_paths() {
    assert!(READINESS_SOCKET_PATH.starts_with("/run/pact/"));
    assert!(READINESS_FILE_PATH.starts_with("/run/pact/"));
}

#[test]
fn namespace_response_fd_order() {
    let resp = NamespaceResponse {
        allocation_id: "alloc-42".to_string(),
        fd_types: vec![NamespaceType::Pid, NamespaceType::Net, NamespaceType::Mount],
        uenv_mount_path: Some("/run/pact/uenv/pytorch-2.5".to_string()),
    };
    assert_eq!(resp.fd_types[0], NamespaceType::Pid);
    assert_eq!(resp.fd_types[1], NamespaceType::Net);
    assert_eq!(resp.fd_types[2], NamespaceType::Mount);
}

#[test]
fn handoff_constants() {
    assert_eq!(HANDOFF_SOCKET_PATH, "/run/pact/handoff.sock");
    assert_eq!(DEFAULT_HOLD_TIME_SECS, 60);
    let req = NamespaceRequest {
        allocation_id: "alloc-42".to_string(),
        namespaces: vec![NamespaceType::Pid],
        uenv_image: None,
    };
    assert_eq!(req.clone().namespaces.len(), 1);
    let ended = AllocationEnded { allocation_id: "alloc-42".to_string() };
    assert_eq!(ended.allocation_id, "alloc-42");
    let handle = MountHandle {
        image_path: "/images/pytorch-2.5.sqfs".to_string(),
        mount_point: "/run/pact/uenv/pytorch-2.5".to_string(),
    };
    assert_eq!(handle.clone().mount_point, "/run/pact/uenv/pytorch-2.5");
}

#[test]
fn node_error_display() {
    let e = MountError::MountFailed { image_path: "/i.sqfs".to_string(), reason: "busy".to_string() };
    assert_eq!(e.to_string(), "mount failed for /i.sqfs: busy");
    let e = MountError::UnmountFailed { mount_point: "/m".to_string(), reason: "busy".to_string() };
    assert_eq!(e.to_string(), "unmount failed for /m: busy");
    let e = MountError::RefcountInconsistency {
        image_path: "/i.sqfs".to_string(),
        detail: "negative".to_string(),
    };
    assert_eq!(e.to_string(), "refcount inconsistency for /i.sqfs: negative");
    let e = MountError::Io(std::io::Error::new(std::io::ErrorKind::Other, "eio"));
    assert_eq!(e.to_string(), "mount I/O error: eio");

    let e = NamespaceError::SocketUnavailable { reason: "refused".to_string() };
    assert_eq!(e.to_string(), "handoff socket unavailable: refused");
    let e = NamespaceError::CreationFailed { reason: "unshare".to_string() };
    assert_eq!(e.to_string(), "namespace creation failed: unshare");
    let e = NamespaceError::AllocationNotFound { allocation_id: "a1".to_string() };
    assert_eq!(e.to_string(), "allocation not found: a1");
    let e = NamespaceError::FdPassing(std::io::Error::new(std::io::ErrorKind::Other, "ebadf"));
    assert_eq!(e.to_string(), "FD passing failed: ebadf");

    let e = ReadinessError::BootFailed { reason: "phase 3".to_string() };
    assert_eq!(e.to_string(), "boot failed: phase 3");
    assert_eq!(ReadinessError::Timeout.to_string(), "timeout waiting for readiness");
}
