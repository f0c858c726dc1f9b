use task_processing_system_rs::orchestrator::TaskOrchestrator;
use task_processing_system_rs::types::{
    CreateTaskRequest, Operation, OrchestratorConfig, SystemError, TaskData, TaskError,
    TaskPriority, TaskStatus,
};

fn create_test_config() -> OrchestratorConfig {
    OrchestratorConfig {
        num_workers: 2,
        threads_per_worker: 2,
        orchestrator_port: 9999,
    }
}

fn request(id: &str, input: u64) -> CreateTaskRequest {
    CreateTaskRequest {
        id: id.to_string(),
        title: format!("Task {}", id),
        priority: TaskPriority::Medium,
        data: TaskData::new(input, Operation::Factorial),
    }
}

#[test]
fn test_orchestrator_creation() {
    let config = create_test_config();
    let orchestrator = TaskOrchestrator::new(config.clone());

    assert!(orchestrator.is_ok());
    let orchestrator = orchestrator.unwrap();
    assert_eq!(orchestrator.workers.len(), config.num_workers);
}

#[test]
fn test_invalid_config() {
    let mut config = create_test_config();
    config.num_workers = 0; // Invalid

    let result = TaskOrchestrator::new(config);
    assert!(result.is_err());
}

#[test]
fn test_round_robin_selection() {
    let config = create_test_config();
    let mut orchestrator = TaskOrchestrator::new(config).unwrap();

    // Test round-robin selection
    assert_eq!(orchestrator.select_worker(), 0);
    assert_eq!(orchestrator.select_worker(), 1);
    assert_eq!(orchestrator.select_worker(), 0); // Wraps around
}

#[test]
fn test_create_task_request() {
    let request = CreateTaskRequest {
        id: "test-123".to_string(),
        title: "Test Task".to_string(),
        priority: TaskPriority::High,
        data: TaskData::new(10, Operation::Factorial),
    };

    let task = request.into_task();
    assert!(task.is_ok());

    let task = task.unwrap();
    assert_eq!(task.id, "test-123");
    assert_eq!(task.priority, TaskPriority::High);
    assert_eq!(task.status, TaskStatus::Pending);
}

#[test]
fn test_system_stats_calculation() {
    let config = create_test_config();
    let orchestrator = TaskOrchestrator::new(config).unwrap();

    let stats = orchestrator.get_system_stats();
    assert_eq!(stats.total_workers, 2);
    assert_eq!(stats.workers.len(), 2);
    assert_eq!(stats.total_tasks_processed, 0);
}

#[test]
fn test_create_requires_running() {
    let mut orchestrator = TaskOrchestrator::new(create_test_config()).unwrap();
    let result = orchestrator.create_task(request("r-1", 5));
    assert!(matches!(result, Err(SystemError::Orchestrator { .. })));

    orchestrator.start().unwrap();
    assert!(orchestrator.create_task(request("r-1", 5)).is_ok());
}

#[test]
fn test_create_rejects_invalid_request() {
    let mut orchestrator = TaskOrchestrator::new(create_test_config()).unwrap();
    orchestrator.start().unwrap();
    let bad = CreateTaskRequest {
        id: "too-big".to_string(),
        title: "Too big".to_string(),
        priority: TaskPriority::Low,
        data: TaskData::new(21, Operation::Factorial),
    };
    assert!(matches!(orchestrator.create_task(bad), Err(SystemError::Config(_))));
}

#[test]
fn test_round_robin_distribution() {
    // With W workers and sequential creations, task i lands on worker i % W.
    let mut orchestrator = TaskOrchestrator::new(create_test_config()).unwrap();
    orchestrator.start().unwrap();
    for i in 0..6u64 {
        let id = format!("rr-{}", i);
        orchestrator.create_task(request(&id, 5)).unwrap();
    }
    for i in 0..6usize {
        let id = format!("rr-{}", i);
        let expected_worker = i % 2;
        assert!(orchestrator.workers[expected_worker].get_task(&id).is_some());
        assert!(orchestrator.workers[1 - expected_worker].get_task(&id).is_none());
    }
}

#[test]
fn test_duplicate_id_across_system() {
    // Routing sends creations round-robin; with one worker both submissions
    // land on the same worker, and the second is refused.
    let config = OrchestratorConfig {
        num_workers: 1,
        threads_per_worker: 1,
        orchestrator_port: 9999,
    };
    let mut orchestrator = TaskOrchestrator::new(config).unwrap();
    orchestrator.start().unwrap();
    assert!(orchestrator.create_task(request("t1", 5)).is_ok());
    let second = orchestrator.create_task(request("t1", 5));
    assert!(matches!(
        second,
        Err(SystemError::Task(TaskError::TaskAlreadyExists { .. }))
    ));
}

#[test]
fn test_basic_task_workflow() {
    // End to end: create "t1" with input 5/factorial, process, poll for the
    // result, complete, and poll again for the completion timestamp.
    let config = OrchestratorConfig {
        num_workers: 1,
        threads_per_worker: 1,
        orchestrator_port: 9999,
    };
    let mut orchestrator = TaskOrchestrator::new(config).unwrap();
    orchestrator.start().unwrap();

    let id = orchestrator.create_task(request("t1", 5)).unwrap();
    assert_eq!(id, "t1");

    // The worker's processing loop drains its queue.
    let mut worker = orchestrator.workers.remove(0);
    worker.drain_queue();
    orchestrator.workers.insert(0, worker);

    let task = orchestrator.get_task(&"t1".to_string()).unwrap();
    assert_eq!(task.status, TaskStatus::Processing);
    assert_eq!(task.result, Some("120".to_string()));

    let response = orchestrator.complete_task(&"t1".to_string()).unwrap();
    assert_eq!(response.id, "t1");
    assert_eq!(response.status, TaskStatus::Completed);

    let task = orchestrator.get_task(&"t1".to_string()).unwrap();
    assert_eq!(task.status, TaskStatus::Completed);
    assert!(task.completed_at.is_some());
}

#[test]
fn test_complete_surfaces_transition_error() {
    // The fan-out stops at the worker that holds the task: a task that is
    // present but still pending yields an invalid-transition error, not
    // "not found".
    let mut orchestrator = TaskOrchestrator::new(create_test_config()).unwrap();
    orchestrator.start().unwrap();
    orchestrator.create_task(request("pend-1", 5)).unwrap();
    let result = orchestrator.complete_task(&"pend-1".to_string());
    assert!(matches!(result, Err(TaskError::InvalidStatusTransition { .. })));
}

#[test]
fn test_get_task_not_found() {
    let orchestrator = TaskOrchestrator::new(create_test_config()).unwrap();
    let result = orchestrator.get_task(&"missing".to_string());
    assert!(matches!(result, Err(TaskError::TaskNotFound { .. })));
}

#[test]
fn test_complete_task_not_found() {
    let mut orchestrator = TaskOrchestrator::new(create_test_config()).unwrap();
    let result = orchestrator.complete_task(&"missing".to_string());
    assert!(matches!(result, Err(TaskError::TaskNotFound { .. })));
}

#[test]
fn test_many_tasks_all_tracked() {
    // A batch of creations with distinct ids yields exactly that many
    // distinct retrievable tasks, and the processed total reaches the batch
    // size once every worker drains its queue.
    let config = OrchestratorConfig {
        num_workers: 3,
        threads_per_worker: 2,
        orchestrator_port: 9999,
    };
    let mut orchestrator = TaskOrchestrator::new(config).unwrap();
    orchestrator.start().unwrap();

    let k = 10u64;
    for i in 0..k {
        let id = format!("batch-{}", i);
        orchestrator.create_task(request(&id, 3 + i % 5)).unwrap();
    }

    for idx in 0..orchestrator.workers.len() {
        let mut worker = orchestrator.workers.remove(idx);
        worker.drain_queue();
        orchestrator.workers.insert(idx, worker);
    }

    for i in 0..k {
        let id = format!("batch-{}", i);
        let task = orchestrator.get_task(&id).unwrap();
        assert_eq!(task.id, id);
        assert_eq!(task.status, TaskStatus::Processing);
    }

    let stats = orchestrator.get_system_stats();
    assert_eq!(stats.total_tasks_processed, k);
    assert_eq!(stats.total_tasks_failed, 0);
}

#[test]
fn test_orchestrator_start_stop() {
    let mut orchestrator = TaskOrchestrator::new(create_test_config()).unwrap();
    assert!(orchestrator.start().is_ok());
    assert!(orchestrator.start().is_err());
    for stats in orchestrator.get_system_stats().workers {
        assert!(stats.is_healthy);
    }
    orchestrator.stop();
    orchestrator.stop();
    for stats in orchestrator.get_system_stats().workers {
        assert!(!stats.is_healthy);
    }
}

#[test]
fn test_stats_aggregation() {
    let mut orchestrator = TaskOrchestrator::new(create_test_config()).unwrap();
    orchestrator.start().unwrap();
    orchestrator.create_task(request("s-1", 5)).unwrap();
    orchestrator.create_task(request("s-2", 6)).unwrap();
    orchestrator.create_task(request("s-3", 7)).unwrap();

    for idx in 0..orchestrator.workers.len() {
        let mut worker = orchestrator.workers.remove(idx);
        worker.drain_queue();
        orchestrator.workers.insert(idx, worker);
    }
    orchestrator.complete_task(&"s-1".to_string()).unwrap();

    let stats = orchestrator.get_system_stats();
    assert_eq!(stats.total_tasks_processed, 3);
    assert_eq!(stats.total_tasks_completed, 1);
    assert_eq!(stats.total_tasks_failed, 0);
    assert_eq!(stats.workers.len(), 2);
}
