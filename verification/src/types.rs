//! Core data types: priorities, statuses, operations, task payloads,
//! configuration, and the error taxonomy.

use vstd::prelude::*;

verus! {

use vstd::string::StringExecFns;

/// Task priority levels, ordered `Low < Medium < High`. Priority is inert
/// metadata: it never influences dispatch or processing order.
#[derive(Debug, Clone, Copy, PartialEq, Eq, PartialOrd, Ord, Structural)]
pub enum TaskPriority {
    Low,
    Medium,
    High,
}

impl Default for TaskPriority {
    fn default() -> (r: Self)
        ensures
            r == TaskPriority::Medium,
    {
        TaskPriority::Medium
    }
}

impl TaskPriority {
    /// The wire encoding: 1 = Low, 2 = Medium, 3 = High.
    pub fn wire_value(&self) -> (v: u8)
        ensures
            v == self.spec_wire_value(),
    {
        match self {
            TaskPriority::Low => 1,
            TaskPriority::Medium => 2,
            TaskPriority::High => 3,
        }
    }

    pub open spec fn spec_wire_value(self) -> u8 {
        match self {
            TaskPriority::Low => 1,
            TaskPriority::Medium => 2,
            TaskPriority::High => 3,
        }
    }
}

impl core::convert::From<u8> for TaskPriority {
    /// Decodes the wire encoding; unrecognized values default to `Medium`.
    fn from(value: u8) -> (r: Self) {
        match value {
            1 => TaskPriority::Low,
            2 => TaskPriority::Medium,
            3 => TaskPriority::High,
            _ => TaskPriority::Medium,
        }
    }
}

impl vstd::std_specs::convert::FromSpecImpl<u8> for TaskPriority {
    open spec fn obeys_from_spec() -> bool {
        true
    }

    open spec fn from_spec(value: u8) -> Self {
        if value == 1 {
            TaskPriority::Low
        } else if value == 3 {
            TaskPriority::High
        } else {
            TaskPriority::Medium
        }
    }
}

/// Task execution status. `Pending` is initial; `Completed` and `Failed`
/// are terminal.
#[derive(Debug, Clone, Copy, PartialEq, Eq, Structural)]
pub enum TaskStatus {
    Pending,
    Processing,
    Completed,
    Failed,
}

impl Default for TaskStatus {
    fn default() -> (r: Self)
        ensures
            r == TaskStatus::Pending,
    {
        TaskStatus::Pending
    }
}

/// The task status state machine: the only transitions a task may take.
///
/// `Pending -> Processing` (calculation succeeded, internal),
/// `Pending -> Failed` (calculation failed, internal),
/// `Processing -> Completed` (explicit external completion request).
/// No transition leaves `Completed` or `Failed`.
pub open spec fn status_transition_allowed(from: TaskStatus, to: TaskStatus) -> bool {
    match (from, to) {
        (TaskStatus::Pending, TaskStatus::Processing) => true,
        (TaskStatus::Pending, TaskStatus::Failed) => true,
        (TaskStatus::Processing, TaskStatus::Completed) => true,
        _ => false,
    }
}

/// `Completed` is terminal: no transition leaves it.
pub proof fn lemma_completed_is_terminal()
    ensures
        forall|to: TaskStatus| !status_transition_allowed(TaskStatus::Completed, to),
{
}

/// `Failed` is terminal: no transition leaves it.
pub proof fn lemma_failed_is_terminal()
    ensures
        forall|to: TaskStatus| !status_transition_allowed(TaskStatus::Failed, to),
{
}

/// Mathematical operations supported by the system.
#[derive(Debug, Clone, Copy, PartialEq, Eq, Structural)]
pub enum Operation {
    Factorial,
    Fibonacci,
    PrimeCheck,
}

impl Operation {
    pub open spec fn spec_name(self) -> Seq<char> {
        match self {
            Operation::Factorial => "factorial"@,
            Operation::Fibonacci => "fibonacci"@,
            Operation::PrimeCheck => "prime_check"@,
        }
    }

    /// The wire encoding of the operation.
    pub fn name(&self) -> (s: String)
        ensures
            s@ == self.spec_name(),
    {
        match self {
            Operation::Factorial => String::from_str("factorial"),
            Operation::Fibonacci => String::from_str("fibonacci"),
            Operation::PrimeCheck => String::from_str("prime_check"),
        }
    }

    /// The operation-specific input bound: factorial and fibonacci results
    /// overflow 64-bit range beyond these, so inputs are rejected up front.
    pub open spec fn spec_input_bound(self) -> u64 {
        match self {
            Operation::Factorial => 20,
            Operation::Fibonacci => 93,
            Operation::PrimeCheck => u64::MAX / 2,
        }
    }

    pub fn input_bound(&self) -> (b: u64)
        ensures
            b == self.spec_input_bound(),
    {
        match self {
            Operation::Factorial => 20,
            Operation::Fibonacci => 93,
            Operation::PrimeCheck => u64::MAX / 2,
        }
    }
}

/// Task data payload containing calculation parameters.
#[derive(Debug, Clone)]
pub struct TaskData {
    /// Always "calculation"; anything else is rejected by validation.
    pub task_type: String,
    pub input: u64,
    pub operation: Operation,
}

impl TaskData {
    /// A payload is valid when its type tag is "calculation" and its input
    /// is within the operation-specific bound.
    pub open spec fn is_valid(self) -> bool {
        self.task_type@ == "calculation"@ && self.input <= self.operation.spec_input_bound()
    }

    pub fn new(input: u64, operation: Operation) -> (r: Self)
        ensures
            r.task_type@ == "calculation"@,
            r.input == input,
            r.operation == operation,
    {
        TaskData { task_type: String::from_str("calculation"), input, operation }
    }

    /// The exact outcome of validating this payload: which error comes on
    /// which input, and success exactly on valid payloads.
    pub open spec fn validate_result(self) -> Result<(), ValidationError> {
        if self.task_type@ != "calculation"@ {
            Err(ValidationError::InvalidTaskType(self.task_type))
        } else if self.input > self.operation.spec_input_bound() {
            Err(
                ValidationError::InputTooLarge {
                    operation: self.operation,
                    input: self.input,
                    max_allowed: self.operation.spec_input_bound(),
                },
            )
        } else {
            Ok(())
        }
    }

    /// Validate the payload's input constraints.
    pub fn validate(&self) -> (r: Result<(), ValidationError>)
        ensures
            r == self.validate_result(),
            self.is_valid() <==> r is Ok,
    {
        if !(self.task_type == String::from_str("calculation")) {
            return Err(ValidationError::InvalidTaskType(self.task_type.clone()));
        }
        let bound = self.operation.input_bound();
        if self.input > bound {
            return Err(
                ValidationError::InputTooLarge {
                    operation: self.operation,
                    input: self.input,
                    max_allowed: bound,
                },
            );
        }
        Ok(())
    }
}

/// Configuration for the orchestrator and its worker pool.
#[derive(Debug, Clone)]
pub struct OrchestratorConfig {
    pub num_workers: usize,
    pub threads_per_worker: usize,
    pub orchestrator_port: u16,
}

impl Default for OrchestratorConfig {
    fn default() -> (r: Self)
        ensures
            r.num_workers == 3,
            r.threads_per_worker == 4,
            r.orchestrator_port == 7000,
    {
        OrchestratorConfig { num_workers: 3, threads_per_worker: 4, orchestrator_port: 7000 }
    }
}

impl OrchestratorConfig {
    /// A configuration is valid with 1 to 50 workers, 1 to 32 threads per
    /// worker, and a listen port above 1024.
    pub open spec fn is_valid(self) -> bool {
        &&& 1 <= self.num_workers <= 50
        &&& 1 <= self.threads_per_worker <= 32
        &&& self.orchestrator_port > 1024
    }

    /// The exact outcome of validating this configuration: worker count is
    /// checked first, then thread count, then port.
    pub open spec fn validate_result(self) -> Result<(), ValidationError> {
        if self.num_workers == 0 || self.num_workers > 50 {
            Err(ValidationError::InvalidWorkerCount(self.num_workers))
        } else if self.threads_per_worker == 0 || self.threads_per_worker > 32 {
            Err(ValidationError::InvalidThreadCount(self.threads_per_worker))
        } else if self.orchestrator_port <= 1024 {
            Err(ValidationError::InvalidPort(self.orchestrator_port))
        } else {
            Ok(())
        }
    }

    pub fn validate(&self) -> (r: Result<(), ValidationError>)
        ensures
            r == self.validate_result(),
            self.is_valid() <==> r is Ok,
    {
        if self.num_workers == 0 || self.num_workers > 50 {
            return Err(ValidationError::InvalidWorkerCount(self.num_workers));
        }
        if self.threads_per_worker == 0 || self.threads_per_worker > 32 {
            return Err(ValidationError::InvalidThreadCount(self.threads_per_worker));
        }
        if self.orchestrator_port <= 1024 {
            return Err(ValidationError::InvalidPort(self.orchestrator_port));
        }
        Ok(())
    }
}

/// Relies on chrono's `Utc::now` and `DateTime::timestamp`: the current
/// wall-clock time as whole seconds since the Unix epoch. Nothing is
/// assumed of the clock's value.
#[verifier::external_body]
pub(crate) fn now_timestamp() -> i64 {
    chrono::Utc::now().timestamp()
}

/// Relies on uuid's `Uuid::new_v4` and its `Display` impl: a random v4
/// UUID rendered in the hyphenated form, which is exactly 36 characters.
#[verifier::external_body]
pub(crate) fn generate_task_id() -> (r: String)
    ensures
        r@.len() == 36,
{
    uuid::Uuid::new_v4().to_string()
}

/// A uniquely identified unit of work and its status state machine.
///
/// Timestamps are whole seconds since the Unix epoch.
#[derive(Debug, Clone)]
pub struct Task {
    pub id: String,
    pub title: String,
    pub priority: TaskPriority,
    pub created_at: i64,
    pub data: TaskData,
    pub status: TaskStatus,
    pub result: Option<String>,
    pub error_message: Option<String>,
    pub completed_at: Option<i64>,
}

impl Task {
    /// A task is valid when its id and title are non-empty and its payload
    /// is valid.
    pub open spec fn is_valid(self) -> bool {
        self.id@.len() > 0 && self.title@.len() > 0 && self.data.is_valid()
    }

    /// The fields a freshly created task must have: status `Pending`, and
    /// no result, error, or completion timestamp yet.
    pub open spec fn is_fresh(self) -> bool {
        &&& self.status == TaskStatus::Pending
        &&& self.result is None
        &&& self.error_message is None
        &&& self.completed_at is None
    }

    /// Create a new task with a generated id.
    pub fn new(title: String, priority: TaskPriority, data: TaskData) -> (r: Self)
        ensures
            r.id@.len() == 36,
            r.title == title,
            r.priority == priority,
            r.data == data,
            r.is_fresh(),
    {
        Task {
            id: generate_task_id(),
            title,
            priority,
            created_at: now_timestamp(),
            data,
            status: TaskStatus::Pending,
            result: None,
            error_message: None,
            completed_at: None,
        }
    }

    /// Create a new task with a caller-supplied id.
    pub fn with_id(id: String, title: String, priority: TaskPriority, data: TaskData) -> (r: Self)
        ensures
            r.id == id,
            r.title == title,
            r.priority == priority,
            r.data == data,
            r.is_fresh(),
    {
        Task {
            id,
            title,
            priority,
            created_at: now_timestamp(),
            data,
            status: TaskStatus::Pending,
            result: None,
            error_message: None,
            completed_at: None,
        }
    }

    /// Mark the task as processing, storing the calculation result. Used
    /// only by a worker's processing loop on a `Pending` task.
    pub fn set_processing(&mut self, result: String)
        ensures
            final (self).status == TaskStatus::Processing,
            final (self).result == Some(result),
            final (self).id == old(self).id,
            final (self).title == old(self).title,
            final (self).priority == old(self).priority,
            final (self).created_at == old(self).created_at,
            final (self).data == old(self).data,
            final (self).error_message == old(self).error_message,
            final (self).completed_at == old(self).completed_at,
    {
        self.status = TaskStatus::Processing;
        self.result = Some(result);
    }

    /// Mark the task as completed. Allowed only from `Processing`: from any
    /// other status the task is left unchanged and an invalid-transition
    /// error is returned.
    pub fn set_completed(&mut self) -> (r: Result<(), TaskError>)
        ensures
            old(self).status == TaskStatus::Processing ==> {
                &&& r is Ok
                &&& final (self).status == TaskStatus::Completed
                &&& final (self).completed_at is Some
                &&& final (self).id == old(self).id
                &&& final (self).title == old(self).title
                &&& final (self).priority == old(self).priority
                &&& final (self).created_at == old(self).created_at
                &&& final (self).data == old(self).data
                &&& final (self).result == old(self).result
                &&& final (self).error_message == old(self).error_message
            },
            old(self).status != TaskStatus::Processing ==> {
                &&& r == Result::<(), TaskError>::Err(
                    TaskError::InvalidStatusTransition {
                        current: old(self).status,
                        requested: TaskStatus::Completed,
                    },
                )
                &&& *final (self) == *old(self)
            },
            old(self).status == TaskStatus::Processing <==> status_transition_allowed(
                old(self).status,
                TaskStatus::Completed,
            ),
    {
        if !(match self.status {
            TaskStatus::Processing => true,
            _ => false,
        }) {
            return Err(
                TaskError::InvalidStatusTransition {
                    current: self.status,
                    requested: TaskStatus::Completed,
                },
            );
        }
        self.status = TaskStatus::Completed;
        self.completed_at = Some(now_timestamp());
        Ok(())
    }

    /// Mark the task as failed, storing the error description. Used only by
    /// a worker's processing loop on a `Pending` task whose calculation
    /// failed.
    pub fn set_failed(&mut self, error_message: String)
        ensures
            final (self).status == TaskStatus::Failed,
            final (self).error_message == Some(error_message),
            final (self).id == old(self).id,
            final (self).title == old(self).title,
            final (self).priority == old(self).priority,
            final (self).created_at == old(self).created_at,
            final (self).data == old(self).data,
            final (self).result == old(self).result,
            final (self).completed_at == old(self).completed_at,
    {
        self.status = TaskStatus::Failed;
        self.error_message = Some(error_message);
    }

    /// Seconds elapsed since the task was created, clamped to the
    /// representable range. The clock is outside the model, so nothing
    /// more than non-negativity is stated.
    pub fn age_seconds(&self) -> (r: i64)
        ensures
            r >= 0,
    {
        let now = now_timestamp();
        match now.checked_sub(self.created_at) {
            Some(d) => if d >= 0 {
                d
            } else {
                0
            },
            None => if now >= 0 {
                i64::MAX
            } else {
                0
            },
        }
    }

    /// The exact outcome of validating the task: an empty id is flagged
    /// first, then an empty title, then any payload error.
    pub open spec fn validate_result(self) -> Result<(), ValidationError> {
        if self.id@.len() == 0 {
            Err(ValidationError::EmptyTaskId)
        } else if self.title@.len() == 0 {
            Err(ValidationError::EmptyTitle)
        } else {
            self.data.validate_result()
        }
    }

    /// Validate the task: non-empty id, non-empty title, valid payload.
    pub fn validate(&self) -> (r: Result<(), ValidationError>)
        ensures
            r == self.validate_result(),
            self.is_valid() <==> r is Ok,
    {
        if self.id.as_str().is_empty() {
            return Err(ValidationError::EmptyTaskId);
        }
        if self.title.as_str().is_empty() {
            return Err(ValidationError::EmptyTitle);
        }
        self.data.validate()
    }
}

fn clone_opt_string(o: &Option<String>) -> (r: Option<String>)
    ensures
        r == *o,
{
    match o {
        Some(s) => Some(s.clone()),
        None => None,
    }
}

/// An exact copy of a task, equal to its source field for field.
pub fn clone_task(t: &Task) -> (r: Task)
    ensures
        r == *t,
{
    Task {
        id: t.id.clone(),
        title: t.title.clone(),
        priority: t.priority,
        created_at: t.created_at,
        data: TaskData {
            task_type: t.data.task_type.clone(),
            input: t.data.input,
            operation: t.data.operation,
        },
        status: t.status,
        result: clone_opt_string(&t.result),
        error_message: clone_opt_string(&t.error_message),
        completed_at: t.completed_at,
    }
}

/// A task creation request, as received from the external interface.
#[derive(Debug, Clone)]
pub struct CreateTaskRequest {
    pub id: String,
    pub title: String,
    pub priority: TaskPriority,
    pub data: TaskData,
}

impl CreateTaskRequest {
    /// A request is accepted exactly when the task it would build is valid.
    pub open spec fn is_valid(self) -> bool {
        self.id@.len() > 0 && self.title@.len() > 0 && self.data.is_valid()
    }

    /// The exact outcome of validating this request, mirroring
    /// `Task::validate_result` on the task it would build.
    pub open spec fn validate_result(self) -> Result<(), ValidationError> {
        if self.id@.len() == 0 {
            Err(ValidationError::EmptyTaskId)
        } else if self.title@.len() == 0 {
            Err(ValidationError::EmptyTitle)
        } else {
            self.data.validate_result()
        }
    }

    /// Build and validate the task described by this request.
    pub fn into_task(self) -> (r: Result<Task, ValidationError>)
        ensures
            match r {
                Ok(t) => {
                    &&& self.is_valid()
                    &&& t.id == self.id
                    &&& t.title == self.title
                    &&& t.priority == self.priority
                    &&& t.data == self.data
                    &&& t.is_fresh()
                },
                Err(e) => !self.is_valid() && self.validate_result() == Result::<
                    (),
                    ValidationError,
                >::Err(e),
            },
    {
        let task = Task::with_id(self.id, self.title, self.priority, self.data);
        match task.validate() {
            Ok(()) => Ok(task),
            Err(e) => Err(e),
        }
    }
}

/// The response to a successful task completion request.
#[derive(Debug, Clone)]
pub struct TaskCompletionResponse {
    pub id: String,
    pub status: TaskStatus,
    pub message: String,
}

/// A snapshot of one worker's counters and queue depth.
#[derive(Debug, Clone, Copy, PartialEq, Eq, Structural)]
pub struct WorkerStats {
    pub id: usize,
    pub tasks_processed: u64,
    pub tasks_completed: u64,
    pub tasks_failed: u64,
    pub current_load: usize,
    pub uptime_seconds: u64,
    pub is_healthy: bool,
}

/// System-wide statistics: per-worker snapshots and their saturating sums.
#[derive(Debug, Clone)]
pub struct SystemStats {
    pub total_tasks_processed: u64,
    pub total_tasks_completed: u64,
    pub total_tasks_failed: u64,
    pub total_workers: usize,
    pub uptime_seconds: u64,
    pub workers: Vec<WorkerStats>,
}

/// Runtime task errors, surfaced to the caller as part of the response for
/// the specific request that triggered them.
#[derive(Debug, Clone)]
pub enum TaskError {
    InvalidStatusTransition { current: TaskStatus, requested: TaskStatus },
    TaskNotFound { id: String },
    TaskAlreadyExists { id: String },
    CalculationError { message: String },
}

impl TaskError {
    pub open spec fn spec_message(self) -> Seq<char> {
        match self {
            TaskError::InvalidStatusTransition { current, requested } =>
                "invalid status transition"@,
            TaskError::TaskNotFound { id } => "task not found: "@ + id@,
            TaskError::TaskAlreadyExists { id } => "task already exists: "@ + id@,
            TaskError::CalculationError { message } => "calculation error: "@ + message@,
        }
    }

    /// A human-readable description of the error.
    pub fn message(&self) -> (s: String)
        ensures
            s@ == self.spec_message(),
    {
        match self {
            TaskError::InvalidStatusTransition { current, requested } => String::from_str(
                "invalid status transition",
            ),
            TaskError::TaskNotFound { id } => String::from_str("task not found: ").concat(
                id.as_str(),
            ),
            TaskError::TaskAlreadyExists { id } => String::from_str("task already exists: ").concat(
                id.as_str(),
            ),
            TaskError::CalculationError { message } => String::from_str(
                "calculation error: ",
            ).concat(message.as_str()),
        }
    }
}

/// Validation errors: the task or the configuration is malformed. Never
/// crashes the process; reported to the caller in-band.
#[derive(Debug, Clone)]
pub enum ValidationError {
    EmptyTaskId,
    EmptyTitle,
    InvalidTaskType(String),
    InputTooLarge { operation: Operation, input: u64, max_allowed: u64 },
    InvalidWorkerCount(usize),
    InvalidThreadCount(usize),
    InvalidPort(u16),
    PortConflict { orchestrator_port: u16, worker_port_start: u16, worker_port_end: u16 },
}

impl ValidationError {
    pub open spec fn spec_message(self) -> Seq<char> {
        match self {
            ValidationError::EmptyTaskId => "empty task ID"@,
            ValidationError::EmptyTitle => "empty title"@,
            ValidationError::InvalidTaskType(t) => "invalid task type: "@ + t@
                + ", expected 'calculation'"@,
            ValidationError::InputTooLarge { operation, input, max_allowed } =>
                "input too large for operation "@ + operation.spec_name(),
            ValidationError::InvalidWorkerCount(n) =>
                "invalid worker count, must be between 1 and 50"@,
            ValidationError::InvalidThreadCount(n) =>
                "invalid thread count, must be between 1 and 32"@,
            ValidationError::InvalidPort(p) => "invalid port, must be between 1024 and 65535"@,
            ValidationError::PortConflict { orchestrator_port, worker_port_start, worker_port_end } =>
                "port conflict"@,
        }
    }

    /// A human-readable description of the error.
    pub fn message(&self) -> (s: String)
        ensures
            s@ == self.spec_message(),
    {
        match self {
            ValidationError::EmptyTaskId => String::from_str("empty task ID"),
            ValidationError::EmptyTitle => String::from_str("empty title"),
            ValidationError::InvalidTaskType(t) => String::from_str("invalid task type: ").concat(
                t.as_str(),
            ).concat(", expected 'calculation'"),
            ValidationError::InputTooLarge { operation, input, max_allowed } => String::from_str(
                "input too large for operation ",
            ).concat(operation.name().as_str()),
            ValidationError::InvalidWorkerCount(n) => String::from_str(
                "invalid worker count, must be between 1 and 50",
            ),
            ValidationError::InvalidThreadCount(n) => String::from_str(
                "invalid thread count, must be between 1 and 32",
            ),
            ValidationError::InvalidPort(p) => String::from_str(
                "invalid port, must be between 1024 and 65535",
            ),
            ValidationError::PortConflict { orchestrator_port, worker_port_start, worker_port_end } =>
                String::from_str("port conflict"),
        }
    }
}

/// Infrastructure errors: a worker or the orchestrator is in the wrong
/// running state, or a lower-level error is being propagated.
#[derive(Debug, Clone)]
pub enum SystemError {
    Worker { message: String },
    Orchestrator { message: String },
    Config(ValidationError),
    Task(TaskError),
}

impl SystemError {
    pub open spec fn spec_message(self) -> Seq<char> {
        match self {
            SystemError::Worker { message } => "worker error: "@ + message@,
            SystemError::Orchestrator { message } => "orchestrator error: "@ + message@,
            SystemError::Config(e) => "configuration error: "@ + e.spec_message(),
            SystemError::Task(e) => "task error: "@ + e.spec_message(),
        }
    }

    /// A human-readable description of the error.
    pub fn message(&self) -> (s: String)
        ensures
            s@ == self.spec_message(),
    {
        match self {
            SystemError::Worker { message } => String::from_str("worker error: ").concat(
                message.as_str(),
            ),
            SystemError::Orchestrator { message } => String::from_str("orchestrator error: ")
                .concat(message.as_str()),
            SystemError::Config(e) => String::from_str("configuration error: ").concat(
                e.message().as_str(),
            ),
            SystemError::Task(e) => String::from_str("task error: ").concat(e.message().as_str()),
        }
    }
}

} // verus!
