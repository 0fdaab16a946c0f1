use hpc_core::audit::{
    AuditError, AuditEvent, AuditOutcome, AuditPrincipal, AuditScope, AuditSink, AuditSource,
    MemoryAuditSink, NullAuditSink,
};
use hpc_core::clock::now;

fn test_event(action: &str) -> AuditEvent {
    AuditEvent {
        id: "test".to_string(),
        timestamp: now(),
        principal: AuditPrincipal::system("test"),
        action: action.to_string(),
        scope: AuditScope::default(),
        outcome: AuditOutcome::Success,
        detail: String::new(),
        metadata: serde_json::Value::Null,
        source: AuditSource::PactAgent,
    }
}

#[test]
fn null_sink_accepts_events() {
    let mut sink = NullAuditSink;
    sink.emit(test_event("test.action"));
    assert!(sink.flush().is_ok());
}

#[test]
fn memory_sink_collects_events() {
    let mut sink = MemoryAuditSink::new();
    assert!(sink.is_empty());

    sink.emit(test_event("action.one"));
    sink.emit(test_event("action.two"));

    assert_eq!(sink.len(), 2);
    let events = sink.events();
    assert_eq!(events[0].action, "action.one");
    assert_eq!(events[1].action, "action.two");
}

#[test]
fn memory_sink_flush_succeeds() {
    let mut sink = MemoryAuditSink::new();
    sink.emit(test_event("action.one"));
    assert!(sink.flush().is_ok());
    // Flush does not clear events
    assert_eq!(sink.len(), 1);
}

#[test]
fn memory_sink_events_are_copies_in_order() {
    let mut sink = MemoryAuditSink::default();
    for i in 0..100 {
        sink.emit(test_event(&format!("event-{i}")));
    }
    let events = sink.events();
    assert_eq!(events.len(), 100);
    for (i, e) in events.iter().enumerate() {
        assert_eq!(e.action, format!("event-{i}"));
        assert!(e.metadata.is_null());
    }
    // Reading the events leaves them collected.
    assert_eq!(sink.events().len(), 100);
    assert!(!sink.is_empty());
}

#[test]
fn audit_error_display() {
    let err = AuditError::SinkUnavailable { reason: "journal down".to_string() };
    assert_eq!(err.to_string(), "audit sink unavailable: journal down");
    let err = AuditError::FlushFailed { reason: "timeout".to_string() };
    assert_eq!(err.to_string(), "audit flush failed: timeout");
}
