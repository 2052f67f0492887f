# boson_coordinator

Verus-verified core of the Boson coordinator.

- `src/scaling.rs` — queue-depth autoscaling (`compute_target_workers`) with its laws:
  bounds, one step per call, monotone in queue depth, hysteresis without flapping.
- `src/axum_api/` — fail-closed admin-auth defaults (`parse_open_lab_mode`,
  `require_admin_auth_default`) and the state / builder that Axum mounts are built with.
- `src/coordinator_adapter.rs` — the runtime handle of the local adapter and how failed
  runtime answers read (absent, empty, zero).
- `src/default_task_config.rs` — which registered tasks the boot-time config bootstrap upserts.
- `src/remote_api_types.rs` — bare HTTP DTO shapes.

`app/` holds the host side that Verus does not see: the async `BosonCoordinatorBackend`
trait and its adapter impl, environment reads, the Axum router, the async bootstrap loop, and
the serde forms of the DTOs. `tests/` exercises the library.
