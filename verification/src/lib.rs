//! A task processing library: validated calculation tasks are distributed
//! round-robin over a pool of workers, each of which owns a task store and a
//! FIFO queue, computes results, and drives every task through the
//! pending / processing / completed / failed status state machine.

use vstd::prelude::*;

pub mod calculations;
pub mod orchestrator;
pub mod store;
pub mod types;
pub mod worker;

pub use calculations::Calculator;
pub use orchestrator::TaskOrchestrator;
pub use types::{
    CreateTaskRequest, Operation, OrchestratorConfig, SystemError, SystemStats, Task,
    TaskCompletionResponse, TaskData, TaskError, TaskPriority, TaskStatus, ValidationError,
    WorkerStats,
};
pub use worker::{Worker, WorkerConfig};

verus! {

/// Result type alias for system operations.
pub type SystemResult<T> = Result<T, SystemError>;

/// Task result type alias.
pub type TaskResult<T> = Result<T, TaskError>;

/// Validation result type alias.
pub type ValidationResult<T> = Result<T, ValidationError>;

} // verus!
