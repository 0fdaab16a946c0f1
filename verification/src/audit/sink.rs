//! Audit sinks: the destination trait and two sinks for tests and for
//! disabled auditing.

use vstd::prelude::*;

use super::event::AuditEvent;
use crate::text::joined;

verus! {

/// Destination for audit events (journal append, file write, SIEM
/// forward, Loki push).
///
/// `emit` must not block the caller: implementations buffer events and
/// flush asynchronously. Keeping the audit trail continuous is the sink's
/// responsibility: an unavailable destination means buffering locally,
/// never silently dropping events.
pub trait AuditSink: Send + Sync {
    /// Emit an audit event; must not block the caller.
    fn emit(&mut self, event: AuditEvent);

    /// Flush any buffered events; called on graceful shutdown and may block.
    fn flush(&self) -> Result<(), AuditError>;
}

/// Errors from audit operations.
#[derive(Debug)]
pub enum AuditError {
    SinkUnavailable { reason: String },
    FlushFailed { reason: String },
}

impl AuditError {
    /// The error's message.
    pub open spec fn message(&self) -> Seq<char> {
        match self {
            AuditError::SinkUnavailable { reason } => "audit sink unavailable: "@ + reason@,
            AuditError::FlushFailed { reason } => "audit flush failed: "@ + reason@,
        }
    }

    /// Renders the error as its display text.
    pub fn to_string(&self) -> (r: String)
        ensures
            r@ == self.message(),
    {
        match self {
            AuditError::SinkUnavailable { reason } => joined("audit sink unavailable: ", reason),
            AuditError::FlushFailed { reason } => joined("audit flush failed: ", reason),
        }
    }
}

/// A no-op audit sink that discards all events, for tests or when audit is
/// explicitly disabled.
#[derive(Debug)]
pub struct NullAuditSink;

impl Default for NullAuditSink {
    fn default() -> (r: Self) {
        NullAuditSink
    }
}

impl AuditSink for NullAuditSink {
    /// Discards the event.
    fn emit(&mut self, event: AuditEvent)
        ensures
            *final(self) == *old(self),
    {
    }

    /// Always succeeds.
    fn flush(&self) -> (r: Result<(), AuditError>)
        ensures
            r is Ok,
    {
        Ok(())
    }
}

/// An audit sink that collects events in memory, in emission order; for
/// tests, which inspect `events()` afterwards.
#[derive(Debug)]
pub struct MemoryAuditSink {
    events: Vec<AuditEvent>,
}

impl View for MemoryAuditSink {
    type V = Seq<AuditEvent>;

    /// The events collected so far, oldest first.
    closed spec fn view(&self) -> Seq<AuditEvent> {
        self.events@
    }
}

impl Default for MemoryAuditSink {
    /// A sink that has collected nothing.
    fn default() -> (r: Self)
        ensures
            r@ == Seq::<AuditEvent>::empty(),
    {
        MemoryAuditSink { events: Vec::new() }
    }
}

impl MemoryAuditSink {
    /// A sink that has collected nothing.
    pub fn new() -> (r: Self)
        ensures
            r@ == Seq::<AuditEvent>::empty(),
    {
        Self::default()
    }

    /// Returns all collected events, oldest first.
    pub fn events(&self) -> (r: Vec<AuditEvent>)
        ensures
            r@ == self@,
    {
        let r = self.events.clone();
        assert(r@ =~= self.events@);
        r
    }

    /// Returns the number of collected events.
    pub fn len(&self) -> (r: usize)
        ensures
            r == self@.len(),
    {
        self.events.len()
    }

    /// Returns true if no events have been collected.
    pub fn is_empty(&self) -> (r: bool)
        ensures
            r == (self@.len() == 0),
    {
        self.len() == 0
    }
}

impl AuditSink for MemoryAuditSink {
    /// Appends the event to the collected ones.
    fn emit(&mut self, event: AuditEvent)
        ensures
            final(self)@ == old(self)@.push(event),
    {
        self.events.push(event);
    }

    /// Always succeeds; the collected events stay.
    fn flush(&self) -> (r: Result<(), AuditError>)
        ensures
            r is Ok,
    {
        Ok(())
    }
}

} // verus!
