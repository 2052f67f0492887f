//! Verified core of the Boson coordinator: queue-depth autoscaling, the fail-closed
//! admin-auth defaults of the Axum bridge, and the decisions around the runtime adapter
//! and the task-config bootstrap.

pub mod axum_api;
pub mod coordinator_adapter;
pub mod default_task_config;
pub mod remote_api_types;
pub mod scaling;

pub use coordinator_adapter::CoordinatorAdapter;
