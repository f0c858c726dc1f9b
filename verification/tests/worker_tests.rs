use task_processing_system_rs::types::{
    Operation, Task, TaskData, TaskError, TaskPriority, TaskStatus,
};
use task_processing_system_rs::worker::Worker;

fn factorial_task(id: &str, input: u64) -> Task {
    Task::with_id(
        id.to_string(),
        "Test task".to_string(),
        TaskPriority::High,
        TaskData::new(input, Operation::Factorial),
    )
}

#[test]
fn test_worker_creation() {
    let worker = Worker::new(0, 2);
    assert_eq!(worker.id, 0);
    assert_eq!(worker.config.num_threads, 2);
}

#[test]
fn test_add_task() {
    let mut worker = Worker::new(0, 2);
    let task = Task::new(
        "Test task".to_string(),
        TaskPriority::High,
        TaskData::new(5, Operation::Factorial),
    );
    let task_id = task.id.clone();

    let result = worker.add_task(task);
    assert!(result.is_ok());

    let retrieved_task = worker.get_task(&task_id);
    assert!(retrieved_task.is_some());
    assert_eq!(retrieved_task.unwrap().id, task_id);
}

#[test]
fn test_task_processing() {
    let mut worker = Worker::new(0, 2);
    let task = factorial_task("proc-1", 5);
    worker.add_task(task).unwrap();

    assert!(worker.process_one());

    let processed_task = worker.get_task(&"proc-1".to_string()).unwrap();
    assert_eq!(processed_task.status, TaskStatus::Processing);
    assert_eq!(processed_task.result, Some("120".to_string()));
}

#[test]
fn test_worker_stats() {
    let worker = Worker::new(0, 2);
    let stats = worker.get_stats();

    assert_eq!(stats.id, 0);
    assert_eq!(stats.tasks_processed, 0);
    assert_eq!(stats.tasks_completed, 0);
    assert_eq!(stats.tasks_failed, 0);
}

#[test]
fn test_duplicate_id_rejected() {
    let mut worker = Worker::new(0, 1);
    worker.add_task(factorial_task("dup-1", 5)).unwrap();
    let second = worker.add_task(factorial_task("dup-1", 6));
    assert!(matches!(second, Err(TaskError::TaskAlreadyExists { .. })));
    // The stored task is the first one.
    let stored = worker.get_task(&"dup-1".to_string()).unwrap();
    assert_eq!(stored.data.input, 5);
}

#[test]
fn test_add_task_validates() {
    let mut worker = Worker::new(0, 1);
    let invalid = factorial_task("big-1", 21);
    let result = worker.add_task(invalid);
    assert!(matches!(result, Err(TaskError::CalculationError { .. })));
    assert!(worker.get_task(&"big-1".to_string()).is_none());
}

#[test]
fn test_worker_complete_task() {
    let mut worker = Worker::new(0, 1);
    worker.add_task(factorial_task("c-1", 5)).unwrap();

    // Not processed yet: completing a pending task is an invalid transition.
    let early = worker.complete_task(&"c-1".to_string());
    assert!(matches!(early, Err(TaskError::InvalidStatusTransition { .. })));

    worker.drain_queue();
    let done = worker.complete_task(&"c-1".to_string());
    assert_eq!(done.unwrap(), true);
    let stored = worker.get_task(&"c-1".to_string()).unwrap();
    assert_eq!(stored.status, TaskStatus::Completed);
    assert!(stored.completed_at.is_some());

    // Completing twice: the task is still tracked, so the second attempt
    // reports an invalid transition, not "not found".
    let again = worker.complete_task(&"c-1".to_string());
    assert!(matches!(again, Err(TaskError::InvalidStatusTransition { .. })));

    // A task the worker never saw: "not here", signalled by Ok(false).
    let missing = worker.complete_task(&"nowhere".to_string());
    assert_eq!(missing.unwrap(), false);
}

#[test]
fn test_drain_queue_processes_everything() {
    let mut worker = Worker::new(0, 1);
    worker.add_task(factorial_task("d-1", 3)).unwrap();
    worker.add_task(factorial_task("d-2", 4)).unwrap();
    worker.add_task(factorial_task("d-3", 5)).unwrap();

    let stats = worker.get_stats();
    assert_eq!(stats.current_load, 3);

    worker.drain_queue();

    let stats = worker.get_stats();
    assert_eq!(stats.current_load, 0);
    assert_eq!(stats.tasks_processed, 3);
    assert_eq!(stats.tasks_failed, 0);

    assert_eq!(worker.get_task(&"d-1".to_string()).unwrap().result, Some("6".to_string()));
    assert_eq!(worker.get_task(&"d-2".to_string()).unwrap().result, Some("24".to_string()));
    assert_eq!(worker.get_task(&"d-3".to_string()).unwrap().result, Some("120".to_string()));
}

#[test]
fn test_worker_start_stop() {
    let mut worker = Worker::new(3, 2);
    assert!(worker.start().is_ok());
    assert!(worker.get_stats().is_healthy);
    // Starting a running worker fails.
    assert!(worker.start().is_err());
    worker.stop();
    assert!(!worker.get_stats().is_healthy);
    // Stop is idempotent, and a stopped worker can start again.
    worker.stop();
    assert!(worker.start().is_ok());
}
