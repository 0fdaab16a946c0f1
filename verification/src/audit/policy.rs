//! Compliance policy types: retention and required audit points.

use vstd::prelude::*;
use vstd::string::*;

use super::actions;
use crate::text::str_equal;

verus! {

/// The actions that the default policy requires to be audited: the
/// critical ones.
pub open spec fn default_points() -> Seq<Seq<char>> {
    seq![
        actions::SERVICE_CRASH@,
        actions::EMERGENCY_FREEZE@,
        actions::EMERGENCY_KILL@,
        actions::UID_ASSIGNED@,
        actions::NAMESPACE_HANDOFF_FAILED@,
        actions::BOOT_PHASE_FAILED@,
        actions::NODE_ENROLLED@,
        actions::NODE_DECOMMISSIONED@,
        actions::CONFIG_COMMIT@,
        actions::CONFIG_ROLLBACK@,
    ]
}

/// The actions that the regulated policy requires to be audited: all of
/// them.
pub open spec fn regulated_points() -> Seq<Seq<char>> {
    actions::all_actions()
}

/// Retention and compliance requirements for audit events.
///
/// Configurable per vCluster. Regulated/sensitive vClusters use
/// [`CompliancePolicy::regulated`] with 7-year retention and full access
/// logging.
#[derive(Debug, Clone)]
pub struct CompliancePolicy {
    /// Minimum retention period for audit events in days.
    pub retention_days: u32,
    /// Whether all access operations must be logged (not just mutations).
    pub log_all_access: bool,
    /// Actions that MUST emit audit events. Missing events are a compliance violation.
    pub required_audit_points: Vec<String>,
}

/// A vector holding, in order, the given actions' strings.
fn action_strings_default() -> (r: Vec<String>)
    ensures
        r@.map_values(|s: String| s@) == default_points(),
{
    let mut points: Vec<String> = Vec::new();
    points.push(String::from_str(actions::SERVICE_CRASH));
    points.push(String::from_str(actions::EMERGENCY_FREEZE));
    points.push(String::from_str(actions::EMERGENCY_KILL));
    points.push(String::from_str(actions::UID_ASSIGNED));
    points.push(String::from_str(actions::NAMESPACE_HANDOFF_FAILED));
    points.push(String::from_str(actions::BOOT_PHASE_FAILED));
    points.push(String::from_str(actions::NODE_ENROLLED));
    points.push(String::from_str(actions::NODE_DECOMMISSIONED));
    points.push(String::from_str(actions::CONFIG_COMMIT));
    points.push(String::from_str(actions::CONFIG_ROLLBACK));
    assert(points@.map_values(|s: String| s@) =~= default_points());
    points
}

/// A vector holding, in order, every action's string.
fn action_strings_regulated() -> (r: Vec<String>)
    ensures
        r@.map_values(|s: String| s@) == regulated_points(),
{
    let mut points: Vec<String> = Vec::new();
    points.push(String::from_str(actions::SERVICE_START));
    points.push(String::from_str(actions::SERVICE_STOP));
    points.push(String::from_str(actions::SERVICE_RESTART));
    points.push(String::from_str(actions::SERVICE_CRASH));
    points.push(String::from_str(actions::CGROUP_CREATE));
    points.push(String::from_str(actions::CGROUP_DESTROY));
    points.push(String::from_str(actions::CGROUP_KILL_FAILED));
    points.push(String::from_str(actions::EMERGENCY_FREEZE));
    points.push(String::from_str(actions::EMERGENCY_KILL));
    points.push(String::from_str(actions::UID_ASSIGNED));
    points.push(String::from_str(actions::UID_RANGE_EXHAUSTED));
    points.push(String::from_str(actions::FEDERATION_DEPARTURE_GC));
    points.push(String::from_str(actions::NAMESPACE_HANDOFF));
    points.push(String::from_str(actions::NAMESPACE_HANDOFF_FAILED));
    points.push(String::from_str(actions::NAMESPACE_CLEANUP));
    points.push(String::from_str(actions::NAMESPACE_LEAK_DETECTED));
    points.push(String::from_str(actions::MOUNT_ACQUIRE));
    points.push(String::from_str(actions::MOUNT_RELEASE));
    points.push(String::from_str(actions::MOUNT_FORCE_UNMOUNT));
    points.push(String::from_str(actions::MOUNT_REFCOUNT_CORRECTED));
    points.push(String::from_str(actions::NETWORK_CONFIGURED));
    points.push(String::from_str(actions::NETWORK_FAILED));
    points.push(String::from_str(actions::NETWORK_LINK_LOST));
    points.push(String::from_str(actions::BOOT_PHASE_COMPLETE));
    points.push(String::from_str(actions::BOOT_PHASE_FAILED));
    points.push(String::from_str(actions::BOOT_READY));
    points.push(String::from_str(actions::WATCHDOG_TIMEOUT));
    points.push(String::from_str(actions::SPIRE_SVID_ACQUIRED));
    points.push(String::from_str(actions::CONFIG_COMMIT));
    points.push(String::from_str(actions::CONFIG_ROLLBACK));
    points.push(String::from_str(actions::CONFIG_DRIFT_DETECTED));
    points.push(String::from_str(actions::EXEC_COMMAND));
    points.push(String::from_str(actions::SHELL_SESSION_START));
    points.push(String::from_str(actions::SHELL_SESSION_END));
    points.push(String::from_str(actions::EMERGENCY_START));
    points.push(String::from_str(actions::EMERGENCY_END));
    points.push(String::from_str(actions::NODE_ENROLLED));
    points.push(String::from_str(actions::NODE_ACTIVATED));
    points.push(String::from_str(actions::NODE_DECOMMISSIONED));
    points.push(String::from_str(actions::CERT_RENEWED));
    points.push(String::from_str(actions::ALLOCATION_START));
    points.push(String::from_str(actions::ALLOCATION_END));
    points.push(String::from_str(actions::CHECKPOINT_TRIGGERED));
    points.push(String::from_str(actions::PREEMPTION));
    assert(points@.map_values(|s: String| s@) =~= regulated_points());
    points
}

impl Default for CompliancePolicy {
    /// One-year retention, no access logging, critical actions only.
    fn default() -> (r: Self)
        ensures
            r.retention_days == 365,
            !r.log_all_access,
            r.points() == default_points(),
            r.points().len() == 10,
            forall|a: Seq<char>|
                #[trigger] r.points().contains(a) <==> (a == actions::SERVICE_CRASH@
                || a == actions::EMERGENCY_FREEZE@
                || a == actions::EMERGENCY_KILL@
                || a == actions::UID_ASSIGNED@
                || a == actions::NAMESPACE_HANDOFF_FAILED@
                || a == actions::BOOT_PHASE_FAILED@
                || a == actions::NODE_ENROLLED@
                || a == actions::NODE_DECOMMISSIONED@
                || a == actions::CONFIG_COMMIT@
                || a == actions::CONFIG_ROLLBACK@),
    {
        let r = CompliancePolicy {
            retention_days: 365,
            log_all_access: false,
            required_audit_points: action_strings_default(),
        };
        proof {
            assert forall|a: Seq<char>|
                #[trigger] r.points().contains(a) <==> (a == actions::SERVICE_CRASH@
                || a == actions::EMERGENCY_FREEZE@
                || a == actions::EMERGENCY_KILL@
                || a == actions::UID_ASSIGNED@
                || a == actions::NAMESPACE_HANDOFF_FAILED@
                || a == actions::BOOT_PHASE_FAILED@
                || a == actions::NODE_ENROLLED@
                || a == actions::NODE_DECOMMISSIONED@
                || a == actions::CONFIG_COMMIT@
                || a == actions::CONFIG_ROLLBACK@) by {
                lemma_default_points_are_critical(a);
            }
        }
        r
    }
}

impl CompliancePolicy {
    /// The required audit points, as character sequences.
    pub open spec fn points(&self) -> Seq<Seq<char>> {
        self.required_audit_points@.map_values(|s: String| s@)
    }

    /// Policy for regulated/sensitive vClusters: 7-year retention, full
    /// access logging, all actions audited.
    pub fn regulated() -> (r: Self)
        ensures
            r.retention_days == 2555,
            r.log_all_access,
            r.points() == regulated_points(),
    {
        CompliancePolicy {
            retention_days: 2555,
            log_all_access: true,
            required_audit_points: action_strings_regulated(),
        }
    }

    /// Check if a given action is a required audit point.
    pub fn is_required(&self, action: &str) -> (r: bool)
        ensures
            r == self.points().contains(action@),
    {
        let n = self.required_audit_points.len();
        let mut i: usize = 0;
        while i < n
            invariant
                n == self.required_audit_points.len(),
                i <= n,
                forall|j: int| 0 <= j < i ==> self.points()[j] != action@,
            decreases n - i,
        {
            if str_equal(self.required_audit_points[i].as_str(), action) {
                assert(self.points()[i as int] == action@);
                return true;
            }
            i = i + 1;
        }
        proof {
            if self.points().contains(action@) {
                let k = choose|k: int| 0 <= k < self.points().len() && self.points()[k] == action@;
                assert(self.points()[k] != action@);
            }
        }
        false
    }
}

/// The default policy requires exactly the ten critical actions: a service
/// crash, the emergency freeze and kill, UID assignment, a failed namespace
/// handoff, a failed boot phase, enrollment and decommissioning, and a
/// configuration commit or rollback.
pub proof fn lemma_default_points_are_critical(action: Seq<char>)
    ensures
        default_points().len() == 10,
        default_points().contains(action) <==> (action == actions::SERVICE_CRASH@
            || action == actions::EMERGENCY_FREEZE@
            || action == actions::EMERGENCY_KILL@
            || action == actions::UID_ASSIGNED@
            || action == actions::NAMESPACE_HANDOFF_FAILED@
            || action == actions::BOOT_PHASE_FAILED@
            || action == actions::NODE_ENROLLED@
            || action == actions::NODE_DECOMMISSIONED@
            || action == actions::CONFIG_COMMIT@
            || action == actions::CONFIG_ROLLBACK@),
{
    if default_points().contains(action) {
        let k = choose|k: int| 0 <= k < default_points().len() && default_points()[k] == action;
        if k == 0 {
            assert(default_points()[0] == actions::SERVICE_CRASH@);
        } else if k == 1 {
            assert(default_points()[1] == actions::EMERGENCY_FREEZE@);
        } else if k == 2 {
            assert(default_points()[2] == actions::EMERGENCY_KILL@);
        } else if k == 3 {
            assert(default_points()[3] == actions::UID_ASSIGNED@);
        } else if k == 4 {
            assert(default_points()[4] == actions::NAMESPACE_HANDOFF_FAILED@);
        } else if k == 5 {
            assert(default_points()[5] == actions::BOOT_PHASE_FAILED@);
        } else if k == 6 {
            assert(default_points()[6] == actions::NODE_ENROLLED@);
        } else if k == 7 {
            assert(default_points()[7] == actions::NODE_DECOMMISSIONED@);
        } else if k == 8 {
            assert(default_points()[8] == actions::CONFIG_COMMIT@);
        } else if k == 9 {
            assert(default_points()[9] == actions::CONFIG_ROLLBACK@);
        }
    }
    if action == actions::SERVICE_CRASH@ {
        assert(default_points()[0] == action);
    } else if action == actions::EMERGENCY_FREEZE@ {
        assert(default_points()[1] == action);
    } else if action == actions::EMERGENCY_KILL@ {
        assert(default_points()[2] == action);
    } else if action == actions::UID_ASSIGNED@ {
        assert(default_points()[3] == action);
    } else if action == actions::NAMESPACE_HANDOFF_FAILED@ {
        assert(default_points()[4] == action);
    } else if action == actions::BOOT_PHASE_FAILED@ {
        assert(default_points()[5] == action);
    } else if action == actions::NODE_ENROLLED@ {
        assert(default_points()[6] == action);
    } else if action == actions::NODE_DECOMMISSIONED@ {
        assert(default_points()[7] == action);
    } else if action == actions::CONFIG_COMMIT@ {
        assert(default_points()[8] == action);
    } else if action == actions::CONFIG_ROLLBACK@ {
        assert(default_points()[9] == action);
    }
}

/// Every action that the default policy requires, the regulated policy
/// requires too.
pub proof fn lemma_regulated_covers_default(action: Seq<char>)
    ensures
        default_points().contains(action) ==> regulated_points().contains(action),
{
    if default_points().contains(action) {
        let k = choose|k: int| 0 <= k < default_points().len() && default_points()[k] == action;
        if k == 0 {
            assert(regulated_points()[3] == action);
        } else if k == 1 {
            assert(regulated_points()[7] == action);
        } else if k == 2 {
            assert(regulated_points()[8] == action);
        } else if k == 3 {
            assert(regulated_points()[9] == action);
        } else if k == 4 {
            assert(regulated_points()[13] == action);
        } else if k == 5 {
            assert(regulated_points()[24] == action);
        } else if k == 6 {
            assert(regulated_points()[36] == action);
        } else if k == 7 {
            assert(regulated_points()[38] == action);
        } else if k == 8 {
            assert(regulated_points()[28] == action);
        } else if k == 9 {
            assert(regulated_points()[29] == action);
        }
    }
}

/// The regulated policy audits all actions: every well-known action is one
/// of its required audit points.
pub proof fn lemma_regulated_requires_every_action(i: int)
    requires
        0 <= i < actions::all_actions().len(),
    ensures
        regulated_points().contains(actions::all_actions()[i]),
{
    assert(regulated_points()[i] == actions::all_actions()[i]);
}

} // verus!
