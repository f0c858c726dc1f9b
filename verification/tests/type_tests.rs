use task_processing_system_rs::calculations::Calculator;
use task_processing_system_rs::types::{
    CreateTaskRequest, Operation, OrchestratorConfig, Task, TaskData, TaskPriority, TaskStatus,
    ValidationError,
};

#[test]
fn test_task_lifecycle() {
    let mut task = Task::new(
        "Lifecycle test".to_string(),
        TaskPriority::Medium,
        TaskData::new(10, Operation::Factorial),
    );

    // Initial state
    assert_eq!(task.status, TaskStatus::Pending);
    assert!(task.result.is_none());

    // Process task (simulate worker processing)
    task.set_processing("3628800".to_string());
    assert_eq!(task.status, TaskStatus::Processing);
    assert_eq!(task.result, Some("3628800".to_string()));

    // Complete task (simulate API call)
    let result = task.set_completed();
    assert!(result.is_ok());
    assert_eq!(task.status, TaskStatus::Completed);
    assert!(task.completed_at.is_some());
}

#[test]
fn test_priority_ordering() {
    let high = TaskPriority::High;
    let medium = TaskPriority::Medium;
    let low = TaskPriority::Low;

    assert!(high > medium);
    assert!(medium > low);
    assert!(high > low);
}

#[test]
fn lib_test_error_handling() {
    // Test validation errors
    let invalid_task_data = TaskData {
        task_type: "invalid".to_string(),
        input: 10,
        operation: Operation::Factorial,
    };

    assert!(invalid_task_data.validate().is_err());

    // Test calculation errors
    let result = Calculator::calculate(Operation::Factorial, 25);
    assert!(result.is_err());
}

#[test]
fn test_configuration_validation() {
    // Valid config
    let valid_config = OrchestratorConfig {
        num_workers: 3,
        threads_per_worker: 4,
        orchestrator_port: 7000,
    };
    assert!(valid_config.validate().is_ok());

    // Invalid worker count
    let invalid_config = OrchestratorConfig {
        num_workers: 0,
        ..valid_config
    };
    assert!(invalid_config.validate().is_err());
}

#[test]
fn test_validation_error_variants() {
    let empty_id = Task::with_id(
        String::new(),
        "title".to_string(),
        TaskPriority::Low,
        TaskData::new(1, Operation::Factorial),
    );
    assert!(matches!(empty_id.validate(), Err(ValidationError::EmptyTaskId)));

    let empty_title = Task::with_id(
        "id-1".to_string(),
        String::new(),
        TaskPriority::Low,
        TaskData::new(1, Operation::Factorial),
    );
    assert!(matches!(empty_title.validate(), Err(ValidationError::EmptyTitle)));

    let bad_type = TaskData {
        task_type: "notacalc".to_string(),
        input: 1,
        operation: Operation::Factorial,
    };
    assert!(matches!(bad_type.validate(), Err(ValidationError::InvalidTaskType(_))));

    let too_large = TaskData::new(21, Operation::Factorial);
    match too_large.validate() {
        Err(ValidationError::InputTooLarge { operation, input, max_allowed }) => {
            assert_eq!(operation, Operation::Factorial);
            assert_eq!(input, 21);
            assert_eq!(max_allowed, 20);
        }
        other => panic!("expected InputTooLarge, got {:?}", other),
    }
    assert!(TaskData::new(94, Operation::Fibonacci).validate().is_err());
    assert!(TaskData::new(u64::MAX / 2 + 1, Operation::PrimeCheck).validate().is_err());
    assert!(TaskData::new(u64::MAX / 2, Operation::PrimeCheck).validate().is_ok());

    let bad_threads = OrchestratorConfig { num_workers: 3, threads_per_worker: 0, orchestrator_port: 7000 };
    assert!(matches!(bad_threads.validate(), Err(ValidationError::InvalidThreadCount(0))));

    let bad_port = OrchestratorConfig { num_workers: 3, threads_per_worker: 4, orchestrator_port: 80 };
    assert!(matches!(bad_port.validate(), Err(ValidationError::InvalidPort(80))));

    let too_many = OrchestratorConfig { num_workers: 51, threads_per_worker: 4, orchestrator_port: 7000 };
    assert!(matches!(too_many.validate(), Err(ValidationError::InvalidWorkerCount(51))));
}

#[test]
fn test_generated_task_ids() {
    let a = Task::new(
        "a".to_string(),
        TaskPriority::Low,
        TaskData::new(1, Operation::Factorial),
    );
    let b = Task::new(
        "b".to_string(),
        TaskPriority::Low,
        TaskData::new(1, Operation::Factorial),
    );
    // Hyphenated UUIDs are 36 characters and (for a v4 UUID) distinct in practice.
    assert_eq!(a.id.len(), 36);
    assert_eq!(b.id.len(), 36);
    assert_ne!(a.id, b.id);
    assert!(a.validate().is_ok());
}

#[test]
fn test_complete_requires_processing() {
    let mut task = Task::with_id(
        "t-1".to_string(),
        "title".to_string(),
        TaskPriority::Medium,
        TaskData::new(5, Operation::Factorial),
    );
    // Completing a pending task must fail, never silently succeed.
    assert!(task.set_completed().is_err());
    assert_eq!(task.status, TaskStatus::Pending);

    task.set_processing("120".to_string());
    assert!(task.set_completed().is_ok());
    assert_eq!(task.status, TaskStatus::Completed);

    // Completing twice must fail: Completed is terminal.
    assert!(task.set_completed().is_err());
    assert_eq!(task.status, TaskStatus::Completed);
}

#[test]
fn test_failed_is_terminal() {
    let mut task = Task::with_id(
        "t-2".to_string(),
        "title".to_string(),
        TaskPriority::Medium,
        TaskData::new(5, Operation::Factorial),
    );
    task.set_failed("boom".to_string());
    assert_eq!(task.status, TaskStatus::Failed);
    assert_eq!(task.error_message, Some("boom".to_string()));
    assert!(task.set_completed().is_err());
    assert_eq!(task.status, TaskStatus::Failed);
}

#[test]
fn test_priority_wire_encoding() {
    assert_eq!(TaskPriority::from(1), TaskPriority::Low);
    assert_eq!(TaskPriority::from(2), TaskPriority::Medium);
    assert_eq!(TaskPriority::from(3), TaskPriority::High);
    // Unrecognized values default to Medium.
    assert_eq!(TaskPriority::from(0), TaskPriority::Medium);
    assert_eq!(TaskPriority::from(99), TaskPriority::Medium);
    assert_eq!(TaskPriority::Low.wire_value(), 1);
    assert_eq!(TaskPriority::Medium.wire_value(), 2);
    assert_eq!(TaskPriority::High.wire_value(), 3);
    assert_eq!(TaskPriority::default(), TaskPriority::Medium);
}

#[test]
fn test_operation_names() {
    assert_eq!(Operation::Factorial.name(), "factorial");
    assert_eq!(Operation::Fibonacci.name(), "fibonacci");
    assert_eq!(Operation::PrimeCheck.name(), "prime_check");
}

#[test]
fn test_task_age() {
    let task = Task::new(
        "age".to_string(),
        TaskPriority::Low,
        TaskData::new(1, Operation::Factorial),
    );
    assert!(task.age_seconds() >= 0);
}

#[test]
fn test_error_messages() {
    let err = TaskData::new(21, Operation::Factorial).validate().unwrap_err();
    assert!(err.message().contains("too large"));
    let err = Calculator::fibonacci(100).unwrap_err();
    assert!(err.message().contains("too large"));
}

#[test]
fn test_into_task_preserves_request() {
    let request = CreateTaskRequest {
        id: "req-1".to_string(),
        title: "Request".to_string(),
        priority: TaskPriority::Low,
        data: TaskData::new(7, Operation::Fibonacci),
    };
    let task = request.into_task().unwrap();
    assert_eq!(task.id, "req-1");
    assert_eq!(task.title, "Request");
    assert_eq!(task.priority, TaskPriority::Low);
    assert_eq!(task.data.input, 7);
    assert_eq!(task.status, TaskStatus::Pending);
    assert!(task.result.is_none());
    assert!(task.error_message.is_none());
    assert!(task.completed_at.is_none());

    let invalid = CreateTaskRequest {
        id: String::new(),
        title: "Request".to_string(),
        priority: TaskPriority::Low,
        data: TaskData::new(7, Operation::Fibonacci),
    };
    assert!(matches!(invalid.into_task(), Err(ValidationError::EmptyTaskId)));
}
