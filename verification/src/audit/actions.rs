//! Well-known action strings for cross-system consistency.
//!
//! Both systems use these constants so that audit events are categorized
//! the same way whichever system emits them.

use vstd::prelude::*;

verus! {

// Process supervision
pub const SERVICE_START: &'static str = "service.start";
pub const SERVICE_STOP: &'static str = "service.stop";
pub const SERVICE_RESTART: &'static str = "service.restart";
pub const SERVICE_CRASH: &'static str = "service.crash";

// Resource isolation
pub const CGROUP_CREATE: &'static str = "cgroup.create";
pub const CGROUP_DESTROY: &'static str = "cgroup.destroy";
pub const CGROUP_KILL_FAILED: &'static str = "cgroup.kill_failed";
pub const EMERGENCY_FREEZE: &'static str = "emergency.freeze";
pub const EMERGENCY_KILL: &'static str = "emergency.kill";

// Identity mapping
pub const UID_ASSIGNED: &'static str = "identity.uid_assigned";
pub const UID_RANGE_EXHAUSTED: &'static str = "identity.range_exhausted";
pub const FEDERATION_DEPARTURE_GC: &'static str = "identity.federation_gc";

// Workload integration
pub const NAMESPACE_HANDOFF: &'static str = "namespace.handoff";
pub const NAMESPACE_HANDOFF_FAILED: &'static str = "namespace.handoff_failed";
pub const NAMESPACE_CLEANUP: &'static str = "namespace.cleanup";
pub const NAMESPACE_LEAK_DETECTED: &'static str = "namespace.leak_detected";
pub const MOUNT_ACQUIRE: &'static str = "mount.acquire";
pub const MOUNT_RELEASE: &'static str = "mount.release";
pub const MOUNT_FORCE_UNMOUNT: &'static str = "mount.force_unmount";
pub const MOUNT_REFCOUNT_CORRECTED: &'static str = "mount.refcount_corrected";

// Network
pub const NETWORK_CONFIGURED: &'static str = "network.configured";
pub const NETWORK_FAILED: &'static str = "network.failed";
pub const NETWORK_LINK_LOST: &'static str = "network.link_lost";

// Bootstrap
pub const BOOT_PHASE_COMPLETE: &'static str = "boot.phase_complete";
pub const BOOT_PHASE_FAILED: &'static str = "boot.phase_failed";
pub const BOOT_READY: &'static str = "boot.ready";
pub const WATCHDOG_TIMEOUT: &'static str = "boot.watchdog_timeout";
pub const SPIRE_SVID_ACQUIRED: &'static str = "boot.spire_svid_acquired";

// Configuration management
pub const CONFIG_COMMIT: &'static str = "config.commit";
pub const CONFIG_ROLLBACK: &'static str = "config.rollback";
pub const CONFIG_DRIFT_DETECTED: &'static str = "config.drift_detected";

// Admin operations
pub const EXEC_COMMAND: &'static str = "admin.exec";
pub const SHELL_SESSION_START: &'static str = "admin.shell_start";
pub const SHELL_SESSION_END: &'static str = "admin.shell_end";
pub const EMERGENCY_START: &'static str = "admin.emergency_start";
pub const EMERGENCY_END: &'static str = "admin.emergency_end";

// Enrollment
pub const NODE_ENROLLED: &'static str = "enrollment.enrolled";
pub const NODE_ACTIVATED: &'static str = "enrollment.activated";
pub const NODE_DECOMMISSIONED: &'static str = "enrollment.decommissioned";
pub const CERT_RENEWED: &'static str = "enrollment.cert_renewed";

// Workload lifecycle
pub const ALLOCATION_START: &'static str = "workload.allocation_start";
pub const ALLOCATION_END: &'static str = "workload.allocation_end";
pub const CHECKPOINT_TRIGGERED: &'static str = "workload.checkpoint_triggered";
pub const PREEMPTION: &'static str = "workload.preemption";

/// Every well-known action, in the order above.
pub open spec fn all_actions() -> Seq<Seq<char>> {
    seq![
        SERVICE_START@,
        SERVICE_STOP@,
        SERVICE_RESTART@,
        SERVICE_CRASH@,
        CGROUP_CREATE@,
        CGROUP_DESTROY@,
        CGROUP_KILL_FAILED@,
        EMERGENCY_FREEZE@,
        EMERGENCY_KILL@,
        UID_ASSIGNED@,
        UID_RANGE_EXHAUSTED@,
        FEDERATION_DEPARTURE_GC@,
        NAMESPACE_HANDOFF@,
        NAMESPACE_HANDOFF_FAILED@,
        NAMESPACE_CLEANUP@,
        NAMESPACE_LEAK_DETECTED@,
        MOUNT_ACQUIRE@,
        MOUNT_RELEASE@,
        MOUNT_FORCE_UNMOUNT@,
        MOUNT_REFCOUNT_CORRECTED@,
        NETWORK_CONFIGURED@,
        NETWORK_FAILED@,
        NETWORK_LINK_LOST@,
        BOOT_PHASE_COMPLETE@,
        BOOT_PHASE_FAILED@,
        BOOT_READY@,
        WATCHDOG_TIMEOUT@,
        SPIRE_SVID_ACQUIRED@,
        CONFIG_COMMIT@,
        CONFIG_ROLLBACK@,
        CONFIG_DRIFT_DETECTED@,
        EXEC_COMMAND@,
        SHELL_SESSION_START@,
        SHELL_SESSION_END@,
        EMERGENCY_START@,
        EMERGENCY_END@,
        NODE_ENROLLED@,
        NODE_ACTIVATED@,
        NODE_DECOMMISSIONED@,
        CERT_RENEWED@,
        ALLOCATION_START@,
        ALLOCATION_END@,
        CHECKPOINT_TRIGGERED@,
        PREEMPTION@,
    ]
}

/// The well-known action names are all different.
///
/// The proof counts the names into a set one by one: each name's length,
/// and the characters where it differs from a name of the same length,
/// tell it apart from the names before it.
pub proof fn lemma_action_names_distinct()
    ensures
        all_actions().no_duplicates(),
{
    broadcast use Seq::<Seq<char>>::lemma_push_to_set_commute;
    broadcast use vstd::set::group_set_axioms;
    broadcast use vstd::seq_lib::seq_to_set_is_finite;

    reveal_strlit("service.start");
    reveal_strlit("service.stop");
    reveal_strlit("service.restart");
    reveal_strlit("service.crash");
    reveal_strlit("cgroup.create");
    reveal_strlit("cgroup.destroy");
    reveal_strlit("cgroup.kill_failed");
    reveal_strlit("emergency.freeze");
    reveal_strlit("emergency.kill");
    reveal_strlit("identity.uid_assigned");
    reveal_strlit("identity.range_exhausted");
    reveal_strlit("identity.federation_gc");
    reveal_strlit("namespace.handoff");
    reveal_strlit("namespace.handoff_failed");
    reveal_strlit("namespace.cleanup");
    reveal_strlit("namespace.leak_detected");
    reveal_strlit("mount.acquire");
    reveal_strlit("mount.release");
    reveal_strlit("mount.force_unmount");
    reveal_strlit("mount.refcount_corrected");
    reveal_strlit("network.configured");
    reveal_strlit("network.failed");
    reveal_strlit("network.link_lost");
    reveal_strlit("boot.phase_complete");
    reveal_strlit("boot.phase_failed");
    reveal_strlit("boot.ready");
    reveal_strlit("boot.watchdog_timeout");
    reveal_strlit("boot.spire_svid_acquired");
    reveal_strlit("config.commit");
    reveal_strlit("config.rollback");
    reveal_strlit("config.drift_detected");
    reveal_strlit("admin.exec");
    reveal_strlit("admin.shell_start");
    reveal_strlit("admin.shell_end");
    reveal_strlit("admin.emergency_start");
    reveal_strlit("admin.emergency_end");
    reveal_strlit("enrollment.enrolled");
    reveal_strlit("enrollment.activated");
    reveal_strlit("enrollment.decommissioned");
    reveal_strlit("enrollment.cert_renewed");
    reveal_strlit("workload.allocation_start");
    reveal_strlit("workload.allocation_end");
    reveal_strlit("workload.checkpoint_triggered");
    reveal_strlit("workload.preemption");
    assert(SERVICE_START@.len() == 13);
    assert(SERVICE_START@[0] == 's');
    assert(SERVICE_START@[8] == 's');
    assert(SERVICE_STOP@.len() == 12);
    assert(SERVICE_RESTART@.len() == 15);
    assert(SERVICE_RESTART@[0] == 's');
    assert(SERVICE_CRASH@.len() == 13);
    assert(SERVICE_CRASH@[0] == 's');
    assert(SERVICE_CRASH@[8] == 'c');
    assert(CGROUP_CREATE@.len() == 13);
    assert(CGROUP_CREATE@[0] == 'c');
    assert(CGROUP_CREATE@[1] == 'g');
    assert(CGROUP_DESTROY@.len() == 14);
    assert(CGROUP_DESTROY@[0] == 'c');
    assert(CGROUP_KILL_FAILED@.len() == 18);
    assert(CGROUP_KILL_FAILED@[0] == 'c');
    assert(EMERGENCY_FREEZE@.len() == 16);
    assert(EMERGENCY_KILL@.len() == 14);
    assert(EMERGENCY_KILL@[0] == 'e');
    assert(UID_ASSIGNED@.len() == 21);
    assert(UID_ASSIGNED@[0] == 'i');
    assert(UID_RANGE_EXHAUSTED@.len() == 24);
    assert(UID_RANGE_EXHAUSTED@[0] == 'i');
    assert(FEDERATION_DEPARTURE_GC@.len() == 22);
    assert(NAMESPACE_HANDOFF@.len() == 17);
    assert(NAMESPACE_HANDOFF@[0] == 'n');
    assert(NAMESPACE_HANDOFF@[1] == 'a');
    assert(NAMESPACE_HANDOFF@[10] == 'h');
    assert(NAMESPACE_HANDOFF_FAILED@.len() == 24);
    assert(NAMESPACE_HANDOFF_FAILED@[0] == 'n');
    assert(NAMESPACE_CLEANUP@.len() == 17);
    assert(NAMESPACE_CLEANUP@[0] == 'n');
    assert(NAMESPACE_CLEANUP@[1] == 'a');
    assert(NAMESPACE_CLEANUP@[10] == 'c');
    assert(NAMESPACE_LEAK_DETECTED@.len() == 23);
    assert(NAMESPACE_LEAK_DETECTED@[0] == 'n');
    assert(MOUNT_ACQUIRE@.len() == 13);
    assert(MOUNT_ACQUIRE@[0] == 'm');
    assert(MOUNT_ACQUIRE@[6] == 'a');
    assert(MOUNT_RELEASE@.len() == 13);
    assert(MOUNT_RELEASE@[0] == 'm');
    assert(MOUNT_RELEASE@[6] == 'r');
    assert(MOUNT_FORCE_UNMOUNT@.len() == 19);
    assert(MOUNT_FORCE_UNMOUNT@[0] == 'm');
    assert(MOUNT_REFCOUNT_CORRECTED@.len() == 24);
    assert(MOUNT_REFCOUNT_CORRECTED@[0] == 'm');
    assert(NETWORK_CONFIGURED@.len() == 18);
    assert(NETWORK_CONFIGURED@[0] == 'n');
    assert(NETWORK_FAILED@.len() == 14);
    assert(NETWORK_FAILED@[0] == 'n');
    assert(NETWORK_LINK_LOST@.len() == 17);
    assert(NETWORK_LINK_LOST@[0] == 'n');
    assert(NETWORK_LINK_LOST@[1] == 'e');
    assert(BOOT_PHASE_COMPLETE@.len() == 19);
    assert(BOOT_PHASE_COMPLETE@[0] == 'b');
    assert(BOOT_PHASE_FAILED@.len() == 17);
    assert(BOOT_PHASE_FAILED@[0] == 'b');
    assert(BOOT_READY@.len() == 10);
    assert(BOOT_READY@[0] == 'b');
    assert(WATCHDOG_TIMEOUT@.len() == 21);
    assert(WATCHDOG_TIMEOUT@[0] == 'b');
    assert(SPIRE_SVID_ACQUIRED@.len() == 24);
    assert(SPIRE_SVID_ACQUIRED@[0] == 'b');
    assert(CONFIG_COMMIT@.len() == 13);
    assert(CONFIG_COMMIT@[0] == 'c');
    assert(CONFIG_COMMIT@[1] == 'o');
    assert(CONFIG_ROLLBACK@.len() == 15);
    assert(CONFIG_ROLLBACK@[0] == 'c');
    assert(CONFIG_DRIFT_DETECTED@.len() == 21);
    assert(CONFIG_DRIFT_DETECTED@[0] == 'c');
    assert(EXEC_COMMAND@.len() == 10);
    assert(EXEC_COMMAND@[0] == 'a');
    assert(SHELL_SESSION_START@.len() == 17);
    assert(SHELL_SESSION_START@[0] == 'a');
    assert(SHELL_SESSION_END@.len() == 15);
    assert(SHELL_SESSION_END@[0] == 'a');
    assert(EMERGENCY_START@.len() == 21);
    assert(EMERGENCY_START@[0] == 'a');
    assert(EMERGENCY_END@.len() == 19);
    assert(EMERGENCY_END@[0] == 'a');
    assert(NODE_ENROLLED@.len() == 19);
    assert(NODE_ENROLLED@[0] == 'e');
    assert(NODE_ACTIVATED@.len() == 20);
    assert(NODE_DECOMMISSIONED@.len() == 25);
    assert(NODE_DECOMMISSIONED@[0] == 'e');
    assert(CERT_RENEWED@.len() == 23);
    assert(CERT_RENEWED@[0] == 'e');
    assert(ALLOCATION_START@.len() == 25);
    assert(ALLOCATION_START@[0] == 'w');
    assert(ALLOCATION_END@.len() == 23);
    assert(ALLOCATION_END@[0] == 'w');
    assert(CHECKPOINT_TRIGGERED@.len() == 29);
    assert(PREEMPTION@.len() == 19);
    assert(PREEMPTION@[0] == 'w');
    let t0 = Seq::<Seq<char>>::empty();
    assert(t0.to_set() =~= Set::<Seq<char>>::empty());
    let t1 = t0.push(SERVICE_START@);
    assert(!t0.to_set().contains(SERVICE_START@));
    assert(t1.to_set().len() == 1);
    let t2 = t1.push(SERVICE_STOP@);
    assert(!t1.to_set().contains(SERVICE_STOP@));
    assert(t2.to_set().len() == 2);
    let t3 = t2.push(SERVICE_RESTART@);
    assert(!t2.to_set().contains(SERVICE_RESTART@));
    assert(t3.to_set().len() == 3);
    let t4 = t3.push(SERVICE_CRASH@);
    assert(!t3.to_set().contains(SERVICE_CRASH@));
    assert(t4.to_set().len() == 4);
    let t5 = t4.push(CGROUP_CREATE@);
    assert(!t4.to_set().contains(CGROUP_CREATE@));
    assert(t5.to_set().len() == 5);
    let t6 = t5.push(CGROUP_DESTROY@);
    assert(!t5.to_set().contains(CGROUP_DESTROY@));
    assert(t6.to_set().len() == 6);
    let t7 = t6.push(CGROUP_KILL_FAILED@);
    assert(!t6.to_set().contains(CGROUP_KILL_FAILED@));
    assert(t7.to_set().len() == 7);
    let t8 = t7.push(EMERGENCY_FREEZE@);
    assert(!t7.to_set().contains(EMERGENCY_FREEZE@));
    assert(t8.to_set().len() == 8);
    let t9 = t8.push(EMERGENCY_KILL@);
    assert(!t8.to_set().contains(EMERGENCY_KILL@));
    assert(t9.to_set().len() == 9);
    let t10 = t9.push(UID_ASSIGNED@);
    assert(!t9.to_set().contains(UID_ASSIGNED@));
    assert(t10.to_set().len() == 10);
    let t11 = t10.push(UID_RANGE_EXHAUSTED@);
    assert(!t10.to_set().contains(UID_RANGE_EXHAUSTED@));
    assert(t11.to_set().len() == 11);
    let t12 = t11.push(FEDERATION_DEPARTURE_GC@);
    assert(!t11.to_set().contains(FEDERATION_DEPARTURE_GC@));
    assert(t12.to_set().len() == 12);
    let t13 = t12.push(NAMESPACE_HANDOFF@);
    assert(!t12.to_set().contains(NAMESPACE_HANDOFF@));
    assert(t13.to_set().len() == 13);
    let t14 = t13.push(NAMESPACE_HANDOFF_FAILED@);
    assert(!t13.to_set().contains(NAMESPACE_HANDOFF_FAILED@));
    assert(t14.to_set().len() == 14);
    let t15 = t14.push(NAMESPACE_CLEANUP@);
    assert(!t14.to_set().contains(NAMESPACE_CLEANUP@));
    assert(t15.to_set().len() == 15);
    let t16 = t15.push(NAMESPACE_LEAK_DETECTED@);
    assert(!t15.to_set().contains(NAMESPACE_LEAK_DETECTED@));
    assert(t16.to_set().len() == 16);
    let t17 = t16.push(MOUNT_ACQUIRE@);
    assert(!t16.to_set().contains(MOUNT_ACQUIRE@));
    assert(t17.to_set().len() == 17);
    let t18 = t17.push(MOUNT_RELEASE@);
    assert(!t17.to_set().contains(MOUNT_RELEASE@));
    assert(t18.to_set().len() == 18);
    let t19 = t18.push(MOUNT_FORCE_UNMOUNT@);
    assert(!t18.to_set().contains(MOUNT_FORCE_UNMOUNT@));
    assert(t19.to_set().len() == 19);
    let t20 = t19.push(MOUNT_REFCOUNT_CORRECTED@);
    assert(!t19.to_set().contains(MOUNT_REFCOUNT_CORRECTED@));
    assert(t20.to_set().len() == 20);
    let t21 = t20.push(NETWORK_CONFIGURED@);
    assert(!t20.to_set().contains(NETWORK_CONFIGURED@));
    assert(t21.to_set().len() == 21);
    let t22 = t21.push(NETWORK_FAILED@);
    assert(!t21.to_set().contains(NETWORK_FAILED@));
    assert(t22.to_set().len() == 22);
    let t23 = t22.push(NETWORK_LINK_LOST@);
    assert(!t22.to_set().contains(NETWORK_LINK_LOST@));
    assert(t23.to_set().len() == 23);
    let t24 = t23.push(BOOT_PHASE_COMPLETE@);
    assert(!t23.to_set().contains(BOOT_PHASE_COMPLETE@));
    assert(t24.to_set().len() == 24);
    let t25 = t24.push(BOOT_PHASE_FAILED@);
    assert(!t24.to_set().contains(BOOT_PHASE_FAILED@));
    assert(t25.to_set().len() == 25);
    let t26 = t25.push(BOOT_READY@);
    assert(!t25.to_set().contains(BOOT_READY@));
    assert(t26.to_set().len() == 26);
    let t27 = t26.push(WATCHDOG_TIMEOUT@);
    assert(!t26.to_set().contains(WATCHDOG_TIMEOUT@));
    assert(t27.to_set().len() == 27);
    let t28 = t27.push(SPIRE_SVID_ACQUIRED@);
    assert(!t27.to_set().contains(SPIRE_SVID_ACQUIRED@));
    assert(t28.to_set().len() == 28);
    let t29 = t28.push(CONFIG_COMMIT@);
    assert(!t28.to_set().contains(CONFIG_COMMIT@));
    assert(t29.to_set().len() == 29);
    let t30 = t29.push(CONFIG_ROLLBACK@);
    assert(!t29.to_set().contains(CONFIG_ROLLBACK@));
    assert(t30.to_set().len() == 30);
    let t31 = t30.push(CONFIG_DRIFT_DETECTED@);
    assert(!t30.to_set().contains(CONFIG_DRIFT_DETECTED@));
    assert(t31.to_set().len() == 31);
    let t32 = t31.push(EXEC_COMMAND@);
    assert(!t31.to_set().contains(EXEC_COMMAND@));
    assert(t32.to_set().len() == 32);
    let t33 = t32.push(SHELL_SESSION_START@);
    assert(!t32.to_set().contains(SHELL_SESSION_START@));
    assert(t33.to_set().len() == 33);
    let t34 = t33.push(SHELL_SESSION_END@);
    assert(!t33.to_set().contains(SHELL_SESSION_END@));
    assert(t34.to_set().len() == 34);
    let t35 = t34.push(EMERGENCY_START@);
    assert(!t34.to_set().contains(EMERGENCY_START@));
    assert(t35.to_set().len() == 35);
    let t36 = t35.push(EMERGENCY_END@);
    assert(!t35.to_set().contains(EMERGENCY_END@));
    assert(t36.to_set().len() == 36);
    let t37 = t36.push(NODE_ENROLLED@);
    assert(!t36.to_set().contains(NODE_ENROLLED@));
    assert(t37.to_set().len() == 37);
    let t38 = t37.push(NODE_ACTIVATED@);
    assert(!t37.to_set().contains(NODE_ACTIVATED@));
    assert(t38.to_set().len() == 38);
    let t39 = t38.push(NODE_DECOMMISSIONED@);
    assert(!t38.to_set().contains(NODE_DECOMMISSIONED@));
    assert(t39.to_set().len() == 39);
    let t40 = t39.push(CERT_RENEWED@);
    assert(!t39.to_set().contains(CERT_RENEWED@));
    assert(t40.to_set().len() == 40);
    let t41 = t40.push(ALLOCATION_START@);
    assert(!t40.to_set().contains(ALLOCATION_START@));
    assert(t41.to_set().len() == 41);
    let t42 = t41.push(ALLOCATION_END@);
    assert(!t41.to_set().contains(ALLOCATION_END@));
    assert(t42.to_set().len() == 42);
    let t43 = t42.push(CHECKPOINT_TRIGGERED@);
    assert(!t42.to_set().contains(CHECKPOINT_TRIGGERED@));
    assert(t43.to_set().len() == 43);
    let t44 = t43.push(PREEMPTION@);
    assert(!t43.to_set().contains(PREEMPTION@));
    assert(t44.to_set().len() == 44);
    let names = all_actions();
    assert(names =~= t44);
    names.lemma_no_dup_set_cardinality();
}

} // verus!
