//! Shared audit event types, compliance policies and sinks.
//!
//! A universal [`AuditEvent`] format and [`AuditSink`] trait that both
//! systems implement: each system owns its audit log, and the shared format
//! lets one SIEM forwarder serve both. [`AuditSource`] tells which system
//! emitted an event.

pub mod actions;
pub mod event;

pub use event::{AuditEvent, AuditOutcome, AuditPrincipal, AuditScope, AuditSource, PrincipalType};
pub mod policy;

pub use policy::CompliancePolicy;
pub mod sink;

pub use sink::{AuditError, AuditSink, MemoryAuditSink, NullAuditSink};
