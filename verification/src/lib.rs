//! Replica rebuild engine: the decisions that drive the copy of a block range
//! from a healthy source child to a stale destination child.
//!
//! The crate holds the rules of the engine as verified code over plain values:
//! the segment map, the descriptor of one rebuild, the state machine of a job,
//! the per-segment copy task, the scheduler, the statistics and the registry.
//! Device I/O, range locking and the asynchronous runtime stay with the caller,
//! which performs the actions these functions hand out and reports back what
//! happened.
use vstd::prelude::*;

pub mod backend_laws;
pub mod backend_model;
pub mod backend_proofs;
mod clock;
pub mod copy_model;
pub mod range;
pub mod rebuild_descriptor;
pub mod rebuild_error;
pub mod rebuild_job;
pub mod rebuild_job_backend;
pub mod rebuild_map;
pub mod rebuild_options;
pub mod rebuild_state;
pub mod rebuild_stats;
pub mod rebuild_task;
pub mod registry;

pub use backend_model::BackendAction;
pub use range::Within;
pub use rebuild_descriptor::{DeviceInfo, RebuildDescriptor};
pub use rebuild_error::{IoSide, RebuildError};
pub use rebuild_job::{DeviceOpen, RebuildJob};
pub use rebuild_job_backend::RebuildJobBackend;
pub use rebuild_map::RebuildMap;
pub use rebuild_options::RebuildOptions;
pub use rebuild_state::{RebuildOperation, RebuildState, RebuildStates};
pub use rebuild_stats::{HistoryRecord, RebuildStats};
pub use rebuild_task::{RebuildTask, TaskAction, TaskEvent, TaskResult, TaskState};
pub use registry::Registry;

verus! {

/// Number of concurrent copy tasks per rebuild job.
pub const SEGMENT_TASKS: usize = 16;

/// Smallest accepted number of concurrent copy tasks.
pub const SEGMENT_TASKS_MIN: usize = 1;

/// Largest accepted number of concurrent copy tasks.
pub const SEGMENT_TASKS_MAX: usize = 64;

/// Size in bytes of each segment used by the copy task.
pub const SEGMENT_SIZE: u64 = 131072;

/// Number of finished jobs the registry remembers.
pub const HISTORY_DEPTH: usize = 8;

/// Length in seconds of the window of the recent throughput.
pub const THROUGHPUT_WINDOW_SECS: u64 = 10;

} // verus!
