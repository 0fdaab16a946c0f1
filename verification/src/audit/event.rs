//! Audit event types.

use vstd::prelude::*;
use vstd::string::*;

use crate::clock::UnixTime;

verus! {

/// `serde_json::Value`, carried opaquely as an event's structured metadata.
#[verifier::external_type_specification]
#[verifier::external_body]
pub struct ExJsonValue(serde_json::Value);

/// Calls `<serde_json::Value as Clone>::clone`.
///
/// Trusted: `serde_json` derives `Clone` for `Value`, so the copy is the
/// same JSON value.
#[verifier::external_body]
fn clone_json(v: &serde_json::Value) -> (r: serde_json::Value)
    ensures
        r == *v,
{
    v.clone()
}

/// Universal audit event, emitted by both systems.
///
/// Every field is required: unknown values are empty strings rather than
/// `Option`, so that SIEM systems always receive the same event shape.
#[derive(Debug)]
pub struct AuditEvent {
    /// Unique event ID (UUID v4 recommended).
    pub id: String,
    /// When the event occurred.
    pub timestamp: UnixTime,
    /// Who performed the action.
    pub principal: AuditPrincipal,
    /// What action was performed (use `actions::*` constants).
    pub action: String,
    /// Where (node, vCluster, allocation).
    pub scope: AuditScope,
    /// Success, failure, or denied.
    pub outcome: AuditOutcome,
    /// Human-readable detail message.
    pub detail: String,
    /// Structured metadata (action-specific); `serde_json::Value::Null` if none.
    pub metadata: serde_json::Value,
    /// Which system emitted this event.
    pub source: AuditSource,
}

impl Clone for AuditEvent {
    /// A copy of every field.
    fn clone(&self) -> (r: Self)
        ensures
            r == *self,
    {
        AuditEvent {
            id: self.id.clone(),
            timestamp: self.timestamp,
            principal: self.principal.clone(),
            action: self.action.clone(),
            scope: self.scope.clone(),
            outcome: self.outcome,
            detail: self.detail.clone(),
            metadata: clone_json(&self.metadata),
            source: self.source,
        }
    }
}

/// Who performed the action.
#[derive(Debug)]
pub struct AuditPrincipal {
    /// OIDC subject, service account, or system identifier.
    pub identity: String,
    /// Principal type.
    pub principal_type: PrincipalType,
    /// Role at time of action (e.g., `pact-ops-ml-training`).
    pub role: String,
}

impl Clone for AuditPrincipal {
    /// A copy of every field.
    fn clone(&self) -> (r: Self)
        ensures
            r == *self,
    {
        AuditPrincipal {
            identity: self.identity.clone(),
            principal_type: self.principal_type,
            role: self.role.clone(),
        }
    }
}

impl AuditPrincipal {
    /// Create a system principal (for internal operations): the given
    /// identity, type `System`, and an empty role.
    pub fn system(identity: &str) -> (r: Self)
        ensures
            r.identity@ == identity@,
            r.principal_type == PrincipalType::System,
            r.role@ == Seq::<char>::empty(),
    {
        AuditPrincipal {
            identity: String::from_str(identity),
            principal_type: PrincipalType::System,
            role: String::new(),
        }
    }
}

/// Principal type classification.
#[derive(Debug, Clone, Copy, PartialEq, Eq, Hash, Structural)]
pub enum PrincipalType {
    /// Human administrator.
    Human,
    /// AI agent.
    Agent,
    /// Machine service account.
    Service,
    /// Internal system operation (e.g., supervision loop restart).
    System,
}

/// Where the action occurred.
#[derive(Debug)]
pub struct AuditScope {
    /// Node identifier (if node-scoped).
    pub node_id: Option<String>,
    /// vCluster identifier (if vCluster-scoped).
    pub vcluster_id: Option<String>,
    /// Allocation identifier (if allocation-scoped).
    pub allocation_id: Option<String>,
}

/// A copy of an optional string.
fn clone_opt_string(o: &Option<String>) -> (r: Option<String>)
    ensures
        r == *o,
{
    match o {
        Some(s) => Some(s.clone()),
        None => None,
    }
}

/// The characters of an optional string.
pub open spec fn opt_chars(o: Option<String>) -> Option<Seq<char>> {
    match o {
        Some(s) => Some(s@),
        None => None,
    }
}

impl Clone for AuditScope {
    /// A copy of every field.
    fn clone(&self) -> (r: Self)
        ensures
            r == *self,
    {
        AuditScope {
            node_id: clone_opt_string(&self.node_id),
            vcluster_id: clone_opt_string(&self.vcluster_id),
            allocation_id: clone_opt_string(&self.allocation_id),
        }
    }
}

impl Default for AuditScope {
    /// No node, vCluster or allocation.
    fn default() -> (r: Self)
        ensures
            r.node_id is None,
            r.vcluster_id is None,
            r.allocation_id is None,
    {
        AuditScope { node_id: None, vcluster_id: None, allocation_id: None }
    }
}

impl AuditScope {
    /// Node-scoped event: only the node is set.
    pub fn node(node_id: &str) -> (r: Self)
        ensures
            opt_chars(r.node_id) == Some(node_id@),
            r.vcluster_id is None,
            r.allocation_id is None,
    {
        AuditScope {
            node_id: Some(String::from_str(node_id)),
            vcluster_id: None,
            allocation_id: None,
        }
    }

    /// Node + vCluster scoped event: the node and the vCluster are set.
    pub fn node_vcluster(node_id: &str, vcluster_id: &str) -> (r: Self)
        ensures
            opt_chars(r.node_id) == Some(node_id@),
            opt_chars(r.vcluster_id) == Some(vcluster_id@),
            r.allocation_id is None,
    {
        AuditScope {
            node_id: Some(String::from_str(node_id)),
            vcluster_id: Some(String::from_str(vcluster_id)),
            allocation_id: None,
        }
    }
}

/// Event outcome.
#[derive(Debug, Clone, Copy, PartialEq, Eq, Hash, Structural)]
pub enum AuditOutcome {
    /// Action completed successfully.
    Success,
    /// Action failed (error, not authorization).
    Failure,
    /// Action denied by policy.
    Denied,
}

/// Which system emitted the event.
#[derive(Debug, Clone, Copy, PartialEq, Eq, Hash, Structural)]
pub enum AuditSource {
    PactAgent,
    PactJournal,
    PactCli,
    LatticeNodeAgent,
    LatticeQuorum,
    LatticeCli,
}

} // verus!
