# hpc_core

Shared infrastructure for HPC node agents, written in Verus.

- `src/audit`: audit events, action names, compliance policies (default and
  regulated) and audit sinks.
- `src/identity`: workload identities (validity and renewal timing), provider
  configuration, and the decisions of the cascading provider selection as a
  state machine.
- `src/node`: cgroup slice conventions and ownership, mount, namespace
  handoff and readiness contracts.
- `src/clock`: UTC instants and the system clock.
- `app/`: serde/thiserror copies of the types, the asynchronous identity
  provider traits and the cascade driver, and `SharedAuditSink`.

Audit sinks emit through `&mut self`: `MemoryAuditSink` holds a plain `Vec`
rather than a `Mutex`, since its contract describes the collected events. To
share a sink across threads, wrap it in `app`'s `SharedAuditSink`, which
locks a `Mutex` around each call.

The tests under `tests/` exercise the library.
