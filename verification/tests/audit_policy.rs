use hpc_core::audit::actions;
use hpc_core::audit::CompliancePolicy;

#[test]
fn default_policy() {
    let policy = CompliancePolicy::default();
    assert_eq!(policy.retention_days, 365);
    assert!(!policy.log_all_access);
    assert!(policy.is_required(actions::SERVICE_CRASH));
    assert!(!policy.is_required(actions::SERVICE_START));
}

#[test]
fn regulated_policy() {
    let policy = CompliancePolicy::regulated();
    assert_eq!(policy.retention_days, 2555);
    assert!(policy.log_all_access);
    assert!(policy.is_required(actions::SERVICE_START));
    assert!(policy.is_required(actions::EXEC_COMMAND));
    assert!(policy.is_required(actions::CERT_RENEWED));
}

#[test]
fn is_required_unknown_action() {
    let policy = CompliancePolicy::default();
    assert!(!policy.is_required("totally.unknown.action"));
}

#[test]
fn regulated_is_superset_of_default() {
    let default = CompliancePolicy::default();
    let regulated = CompliancePolicy::regulated();
    for action in &default.required_audit_points {
        assert!(
            regulated.is_required(action),
            "regulated policy missing default required action: {action}"
        );
    }
}

#[test]
fn policy_point_counts() {
    assert_eq!(CompliancePolicy::default().required_audit_points.len(), 10);
    assert_eq!(CompliancePolicy::regulated().required_audit_points.len(), 44);
}

#[test]
fn is_required_needs_exact_match() {
    let policy = CompliancePolicy::regulated();
    assert!(!policy.is_required("service"));
    assert!(!policy.is_required("service.start.extra"));
    assert!(!policy.is_required(""));
    assert!(policy.is_required("admin.shell_end"));
}

#[test]
fn regulated_requires_every_action() {
    let policy = CompliancePolicy::regulated();
    for action in all_actions() {
        assert!(policy.is_required(action), "regulated policy does not audit {action}");
    }
    assert!(policy.is_required(actions::NODE_ACTIVATED));
    assert!(policy.is_required(actions::WATCHDOG_TIMEOUT));
    assert!(policy.is_required(actions::PREEMPTION));
}

fn all_actions() -> Vec<&'static str> {
    vec![
        actions::SERVICE_START,
        actions::SERVICE_STOP,
        actions::SERVICE_RESTART,
        actions::SERVICE_CRASH,
        actions::CGROUP_CREATE,
        actions::CGROUP_DESTROY,
        actions::CGROUP_KILL_FAILED,
        actions::EMERGENCY_FREEZE,
        actions::EMERGENCY_KILL,
        actions::UID_ASSIGNED,
        actions::UID_RANGE_EXHAUSTED,
        actions::FEDERATION_DEPARTURE_GC,
        actions::NAMESPACE_HANDOFF,
        actions::NAMESPACE_HANDOFF_FAILED,
        actions::NAMESPACE_CLEANUP,
        actions::NAMESPACE_LEAK_DETECTED,
        actions::MOUNT_ACQUIRE,
        actions::MOUNT_RELEASE,
        actions::MOUNT_FORCE_UNMOUNT,
        actions::MOUNT_REFCOUNT_CORRECTED,
        actions::NETWORK_CONFIGURED,
        actions::NETWORK_FAILED,
        actions::NETWORK_LINK_LOST,
        actions::BOOT_PHASE_COMPLETE,
        actions::BOOT_PHASE_FAILED,
        actions::BOOT_READY,
        actions::WATCHDOG_TIMEOUT,
        actions::SPIRE_SVID_ACQUIRED,
        actions::CONFIG_COMMIT,
        actions::CONFIG_ROLLBACK,
        actions::CONFIG_DRIFT_DETECTED,
        actions::EXEC_COMMAND,
        actions::SHELL_SESSION_START,
        actions::SHELL_SESSION_END,
        actions::EMERGENCY_START,
        actions::EMERGENCY_END,
        actions::NODE_ENROLLED,
        actions::NODE_ACTIVATED,
        actions::NODE_DECOMMISSIONED,
        actions::CERT_RENEWED,
        actions::ALLOCATION_START,
        actions::ALLOCATION_END,
        actions::CHECKPOINT_TRIGGERED,
        actions::PREEMPTION,
    ]
}

#[test]
fn action_constants_are_unique() {
    let all_actions = all_actions();
    let mut seen = std::collections::HashSet::new();
    for action in &all_actions {
        assert!(seen.insert(action), "duplicate action constant: {action}");
    }
}
