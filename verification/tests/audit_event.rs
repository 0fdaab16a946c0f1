use hpc_core::audit::actions;
use hpc_core::audit::{
    AuditEvent, AuditOutcome, AuditPrincipal, AuditScope, AuditSource, PrincipalType,
};
use hpc_core::clock::now;

#[test]
fn system_principal() {
    let p = AuditPrincipal::system("supervision-loop");
    assert_eq!(p.principal_type, PrincipalType::System);
    assert_eq!(p.identity, "supervision-loop");
    assert!(p.role.is_empty());
}

#[test]
fn scope_constructors() {
    let s = AuditScope::node("n1");
    assert_eq!(s.node_id.as_deref(), Some("n1"));
    assert!(s.vcluster_id.is_none());

    let s = AuditScope::node_vcluster("n1", "ml-training");
    assert_eq!(s.node_id.as_deref(), Some("n1"));
    assert_eq!(s.vcluster_id.as_deref(), Some("ml-training"));
}

#[test]
fn scope_default_is_empty() {
    let s = AuditScope::default();
    assert!(s.node_id.is_none());
    assert!(s.vcluster_id.is_none());
    assert!(s.allocation_id.is_none());
}

#[test]
fn scope_node_leaves_allocation_unset() {
    let s = AuditScope::node_vcluster("node-001", "ml-training");
    assert!(s.allocation_id.is_none());
    let s = AuditScope::node("node-001");
    assert!(s.allocation_id.is_none());
}

#[test]
fn audit_event_clone_keeps_every_field() {
    let mut metadata = serde_json::Map::new();
    metadata.insert("service".to_string(), serde_json::Value::from("nvidia-persistenced"));
    metadata.insert("restart_count".to_string(), serde_json::Value::from(3));
    let event = AuditEvent {
        id: "test-123".to_string(),
        timestamp: now(),
        principal: AuditPrincipal {
            identity: "admin@example.com".to_string(),
            principal_type: PrincipalType::Human,
            role: "pact-ops-ml-training".to_string(),
        },
        action: actions::SERVICE_RESTART.to_string(),
        scope: AuditScope::node("node-001"),
        outcome: AuditOutcome::Success,
        detail: "Restarted nvidia-persistenced after crash".to_string(),
        metadata: serde_json::Value::Object(metadata),
        source: AuditSource::PactAgent,
    };
    let copy = event.clone();
    assert_eq!(copy.id, "test-123");
    assert_eq!(copy.timestamp, event.timestamp);
    assert_eq!(copy.action, "service.restart");
    assert_eq!(copy.principal.identity, "admin@example.com");
    assert_eq!(copy.principal.role, "pact-ops-ml-training");
    assert_eq!(copy.scope.node_id.as_deref(), Some("node-001"));
    assert_eq!(copy.outcome, AuditOutcome::Success);
    assert_eq!(copy.source, AuditSource::PactAgent);
    assert_eq!(copy.metadata, event.metadata);
    assert_eq!(copy.metadata["restart_count"], serde_json::Value::from(3));
}
