//! Remote HTTP API DTOs (the shapes of the `/api/boson/*` handler bodies).
//!
//! Timestamps are RFC 3339 strings. These are the bare types; the wire (serde) forms live with
//! the host code.

use vstd::prelude::*;

verus! {

/// Response body for `POST /api/boson/jobs/enqueue`.
#[derive(Debug)]
pub struct EnqueueResponse {
    /// Id of the newly created job.
    pub job_id: String,
}

/// Response shape for job read endpoints (`GET /api/boson/jobs`, `GET /api/boson/jobs/{id}`).
#[derive(Debug)]
pub struct JobResponse {
    /// Unique job identifier (UUID).
    pub job_id: String,
    /// Task name the job was enqueued for.
    pub task_name: String,
    /// Job status as a lowercase string (`queued`, `running`, `success`, `failed`, `canceled`).
    pub status: String,
    /// Priority (lower value = higher priority).
    pub priority: i32,
    /// Worker pool the job is assigned to.
    pub pool: String,
    /// Creation timestamp, RFC 3339.
    pub created_at: String,
}

/// Response shape for run read endpoints (`GET /api/boson/runs`, `GET /api/boson/runs/{id}`).
#[derive(Debug)]
pub struct RunResponse {
    /// Unique run identifier (UUID).
    pub run_id: String,
    /// Job this run belongs to.
    pub job_id: String,
    /// Task name (denormalized from the job).
    pub task_name: String,
    /// Attempt number for this run (1-based).
    pub attempt: i32,
    /// Run status as a lowercase string (`running`, `success`, `failed`, `canceled`, `timeout`).
    pub status: String,
    /// When execution started, RFC 3339.
    pub started_at: String,
    /// When execution finished, RFC 3339 (`None` while still running).
    pub finished_at: Option<String>,
    /// Duration in milliseconds, once finished.
    pub duration_ms: Option<i64>,
}

} // verus!
