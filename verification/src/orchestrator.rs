//! The orchestrator: owns the fixed worker pool, dispatches new tasks
//! round-robin, and fans lookup, completion and statistics requests out
//! across every worker.
//!
//! The HTTP surface that drives these operations lives outside the
//! library; every decision it forwards is made here, under contract.

use vstd::prelude::*;

verus! {

use vstd::string::StringExecFns;
use crate::types::{
    CreateTaskRequest,
    OrchestratorConfig,
    SystemError,
    SystemStats,
    Task,
    TaskCompletionResponse,
    TaskError,
    TaskStatus,
    WorkerStats,
};
use crate::worker::{Worker, is_completed_outcome, sat_add};

/// The dispatch counter after one more task creation: one step forward,
/// wrapping at the top of the range.
pub open spec fn wrap_inc(c: usize) -> usize {
    if c == usize::MAX {
        0
    } else {
        (c + 1) as usize
    }
}

/// A worker as it stands after its running flag is set.
pub open spec fn with_running(w: Worker, running: bool) -> Worker {
    Worker { running, ..w }
}

/// Round-robin dispatch cycles: with w workers, the assignment after
/// counter value k is (k % w), and the next assignment is the cyclic
/// successor — so a fresh orchestrator assigns the i-th of a sequence of
/// sequential creations to worker (i % w).
pub proof fn lemma_round_robin_cycles(k: nat, w: nat)
    requires
        w >= 1,
    ensures
        (k + 1) % w == if k % w + 1 == w {
            0
        } else {
            k % w + 1
        },
{
    let q = k / w;
    let m = k % w;
    assert(k == q * w + m) by (nonlinear_arith)
        requires
            w >= 1,
            q == k / w,
            m == k % w,
    ;
    if m + 1 == w {
        assert(k + 1 == (q + 1) * w) by (nonlinear_arith)
            requires
                k == q * w + m,
                m + 1 == w,
        ;
        assert((k + 1) % w == 0) by (nonlinear_arith)
            requires
                k + 1 == (q + 1) * w,
                w >= 1,
        ;
    } else {
        assert((k + 1) % w == m + 1) by (nonlinear_arith)
            requires
                k == q * w + m,
                m < w,
                m + 1 < w,
                w >= 1,
        ;
    }
}

/// The task orchestrator: a fixed pool of workers, a dispatch counter,
/// and a running flag.
pub struct TaskOrchestrator {
    pub config: OrchestratorConfig,
    pub workers: Vec<Worker>,
    pub current_worker: usize,
    pub running: bool,
    pub start_time: i64,
}

impl TaskOrchestrator {
    /// Well-formedness: the pool has exactly the configured number of
    /// workers (at least one), and every worker is well-formed.
    pub open spec fn wf(self) -> bool {
        &&& self.config.is_valid()
        &&& self.workers@.len() == self.config.num_workers
        &&& forall|i: int| 0 <= i < self.workers@.len() ==> (#[trigger] self.workers@[i]).wf()
    }

    /// The worker index the next created task will be dispatched to.
    pub open spec fn next_worker_index(self) -> int {
        self.current_worker as int % self.workers@.len() as int
    }

    /// Create an orchestrator from a validated configuration: one worker
    /// per configured slot, each with the configured thread count, none of
    /// them running yet.
    pub fn new(config: OrchestratorConfig) -> (r: Result<Self, SystemError>)
        ensures
            match r {
                Ok(o) => {
                    &&& config.is_valid()
                    &&& o.wf()
                    &&& o.config == config
                    &&& o.workers@.len() == config.num_workers
                    &&& forall|i: int|
                        0 <= i < o.workers@.len() ==> {
                            let w = #[trigger] o.workers@[i];
                            &&& w.id == i
                            &&& w.config.num_threads == config.threads_per_worker
                            &&& w.store().dom() == Set::<Seq<char>>::empty()
                            &&& w.queue@.len() == 0
                            &&& w.tasks_processed == 0
                            &&& w.tasks_completed == 0
                            &&& w.tasks_failed == 0
                            &&& !w.running
                        }
                    &&& o.current_worker == 0
                    &&& !o.running
                },
                Err(e) => {
                    &&& !config.is_valid()
                    &&& (e matches SystemError::Config(v) && config.validate_result()
                        == Result::<(), crate::types::ValidationError>::Err(v))
                },
            },
    {
        match config.validate() {
            Ok(()) => {},
            Err(e) => {
                return Err(SystemError::Config(e));
            },
        }
        let mut workers: Vec<Worker> = Vec::new();
        let mut i: usize = 0;
        while i < config.num_workers
            invariant
                i <= config.num_workers,
                workers@.len() == i,
                forall|j: int|
                    0 <= j < i as int ==> {
                        let w = #[trigger] workers@[j];
                        &&& w.id == j
                        &&& w.config.num_threads == config.threads_per_worker
                        &&& w.store().dom() == Set::<Seq<char>>::empty()
                        &&& w.queue@.len() == 0
                        &&& w.tasks_processed == 0
                        &&& w.tasks_completed == 0
                        &&& w.tasks_failed == 0
                        &&& !w.running
                        &&& w.wf()
                    },
            decreases config.num_workers - i,
        {
            let w = Worker::new(i, config.threads_per_worker);
            workers.push(w);
            i = i + 1;
        }
        Ok(
            TaskOrchestrator {
                config,
                workers,
                current_worker: 0,
                running: false,
                start_time: crate::types::now_timestamp(),
            },
        )
    }

    /// Select the worker for the next task: the dispatch counter modulo
    /// the worker count, and step the counter.
    pub fn select_worker(&mut self) -> (idx: usize)
        requires
            old(self).workers@.len() > 0,
        ensures
            idx == old(self).next_worker_index(),
            final (self).current_worker == wrap_inc(old(self).current_worker),
            final (self).workers == old(self).workers,
            final (self).config == old(self).config,
            final (self).running == old(self).running,
            final (self).start_time == old(self).start_time,
    {
        let current = self.current_worker;
        self.current_worker = if current == usize::MAX {
            0
        } else {
            current + 1
        };
        current % self.workers.len()
    }

    /// Start the orchestrator and every worker. Fails, changing nothing,
    /// if it is already running.
    pub fn start(&mut self) -> (r: Result<(), SystemError>)
        requires
            old(self).wf(),
        ensures
            final (self).wf(),
            old(self).running ==> {
                &&& (r matches Err(e) && e is Orchestrator)
                &&& *final (self) == *old(self)
            },
            !old(self).running ==> {
                &&& r is Ok
                &&& final (self).running
                &&& final (self).workers@.len() == old(self).workers@.len()
                &&& forall|i: int|
                    0 <= i < old(self).workers@.len() ==> #[trigger] final (self).workers@[i]
                        == with_running(old(self).workers@[i], true)
                &&& final (self).config == old(self).config
                &&& final (self).current_worker == old(self).current_worker
                &&& final (self).start_time == old(self).start_time
            },
    {
        if self.running {
            return Err(
                SystemError::Orchestrator {
                    message: String::from_str("orchestrator already running"),
                },
            );
        }
        self.running = true;
        let ghost orig = self.workers@;
        let mut i: usize = 0;
        while i < self.workers.len()
            invariant
                i <= self.workers@.len(),
                self.workers@.len() == orig.len(),
                forall|j: int|
                    0 <= j < i as int ==> #[trigger] self.workers@[j] == with_running(
                        orig[j],
                        true,
                    ),
                forall|j: int| i as int <= j < orig.len() ==> #[trigger] self.workers@[j] == orig[j],
                self.running,
                self.config == old(self).config,
                self.current_worker == old(self).current_worker,
                self.start_time == old(self).start_time,
            decreases orig.len() - i,
        {
            let ghost pre = self.workers@;
            let mut w = self.workers.remove(i);
            match w.start() {
                Ok(()) => {},
                Err(_) => {},
            }
            self.workers.insert(i, w);
            proof {
                assert(self.workers@ =~= pre.update(i as int, self.workers@[i as int]));
            }
            i = i + 1;
        }
        Ok(())
    }

    /// Stop the orchestrator and every worker. Idempotent.
    pub fn stop(&mut self)
        requires
            old(self).wf(),
        ensures
            final (self).wf(),
            !final (self).running,
            final (self).workers@.len() == old(self).workers@.len(),
            forall|i: int|
                0 <= i < old(self).workers@.len() ==> #[trigger] final (self).workers@[i]
                    == with_running(old(self).workers@[i], false),
            final (self).config == old(self).config,
            final (self).current_worker == old(self).current_worker,
            final (self).start_time == old(self).start_time,
    {
        self.running = false;
        let ghost orig = self.workers@;
        let mut i: usize = 0;
        while i < self.workers.len()
            invariant
                i <= self.workers@.len(),
                self.workers@.len() == orig.len(),
                forall|j: int|
                    0 <= j < i as int ==> #[trigger] self.workers@[j] == with_running(
                        orig[j],
                        false,
                    ),
                forall|j: int| i as int <= j < orig.len() ==> #[trigger] self.workers@[j] == orig[j],
                !self.running,
                self.config == old(self).config,
                self.current_worker == old(self).current_worker,
                self.start_time == old(self).start_time,
            decreases orig.len() - i,
        {
            let ghost pre = self.workers@;
            let mut w = self.workers.remove(i);
            w.stop();
            self.workers.insert(i, w);
            proof {
                assert(self.workers@ =~= pre.update(i as int, self.workers@[i as int]));
            }
            i = i + 1;
        }
    }

    /// Create a task and dispatch it round-robin.
    ///
    /// Fails when the orchestrator is not running, when the request is
    /// invalid, or when the selected worker already holds the id; in every
    /// other case the task is stored and queued on the selected worker and
    /// its id is returned.
    pub fn create_task(&mut self, request: CreateTaskRequest) -> (r: Result<String, SystemError>)
        requires
            old(self).wf(),
        ensures
            final (self).wf(),
            !old(self).running ==> {
                &&& (r matches Err(e) && e is Orchestrator)
                &&& *final (self) == *old(self)
            },
            old(self).running && !request.is_valid() ==> {
                &&& (r matches Err(e) && e matches SystemError::Config(v)
                    && request.validate_result() == Result::<
                    (),
                    crate::types::ValidationError,
                >::Err(v))
                &&& *final (self) == *old(self)
            },
            old(self).running && request.is_valid() ==> {
                let idx = old(self).next_worker_index();
                let w = old(self).workers@[idx];
                &&& final (self).current_worker == wrap_inc(old(self).current_worker)
                &&& final (self).workers@.len() == old(self).workers@.len()
                &&& final (self).running == old(self).running
                &&& final (self).config == old(self).config
                &&& final (self).start_time == old(self).start_time
                &&& (forall|j: int|
                    0 <= j < old(self).workers@.len() && j != idx
                        ==> #[trigger] final (self).workers@[j] == old(self).workers@[j])
                &&& (w.store().contains_key(request.id@) ==> {
                    &&& r == Result::<String, SystemError>::Err(
                        SystemError::Task(TaskError::TaskAlreadyExists { id: request.id }),
                    )
                    &&& final (self).workers@[idx] == w
                })
                &&& (!w.store().contains_key(request.id@) ==> {
                    let w2 = final (self).workers@[idx];
                    let t = w2.queue@.last();
                    &&& (r matches Ok(s) && s == request.id)
                    &&& t.id == request.id
                    &&& t.title == request.title
                    &&& t.priority == request.priority
                    &&& t.data == request.data
                    &&& t.is_fresh()
                    &&& w2.store() == w.store().insert(request.id@, t)
                    &&& w2.queue@ == w.queue@.push(t)
                    &&& w2.tasks_processed == w.tasks_processed
                    &&& w2.tasks_completed == w.tasks_completed
                    &&& w2.tasks_failed == w.tasks_failed
                    &&& w2.running == w.running
                    &&& w.same_identity(w2)
                })
            },
    {
        if !self.running {
            return Err(
                SystemError::Orchestrator { message: String::from_str("orchestrator not running") },
            );
        }
        let task = match request.into_task() {
            Ok(t) => t,
            Err(e) => {
                return Err(SystemError::Config(e));
            },
        };
        let task_id = task.id.clone();
        let idx = self.select_worker();
        let ghost pre = self.workers@;
        let mut w = self.workers.remove(idx);
        let added = w.add_task(task);
        self.workers.insert(idx, w);
        proof {
            assert(self.workers@ =~= pre.update(idx as int, self.workers@[idx as int]));
        }
        match added {
            Ok(()) => Ok(task_id),
            Err(e) => Err(SystemError::Task(e)),
        }
    }

    /// Look a task up across the pool: the caller does not know which
    /// worker owns it, so every worker is probed in list order and the
    /// first hit is returned.
    pub fn get_task(&self, task_id: &String) -> (r: Result<Task, TaskError>)
        ensures
            match r {
                Ok(t) => exists|i: int|
                    0 <= i < self.workers@.len() && (#[trigger] self.workers@[i]).store()
                        .contains_key(task_id@) && t == self.workers@[i].store()[task_id@] && (
                    forall|j: int|
                        0 <= j < i ==> !(#[trigger] self.workers@[j]).store().contains_key(
                            task_id@,
                        )),
                Err(e) => {
                    &&& e == (TaskError::TaskNotFound { id: *task_id })
                    &&& forall|i: int|
                        0 <= i < self.workers@.len() ==> !(#[trigger] self.workers@[i]).store()
                            .contains_key(task_id@)
                },
            },
    {
        let mut i: usize = 0;
        while i < self.workers.len()
            invariant
                i <= self.workers@.len(),
                forall|j: int|
                    0 <= j < i as int ==> !(#[trigger] self.workers@[j]).store().contains_key(
                        task_id@,
                    ),
            decreases self.workers@.len() - i,
        {
            match self.workers[i].get_task(task_id) {
                Some(t) => {
                    return Ok(t);
                },
                None => {},
            }
            i = i + 1;
        }
        Err(TaskError::TaskNotFound { id: task_id.clone() })
    }

    /// Complete a task across the pool: workers are probed in list order;
    /// the first worker that holds the task settles the request — with a
    /// completion when the task is in `Processing`, with an
    /// invalid-transition error otherwise. Only when no worker holds the
    /// task is not-found returned.
    pub fn complete_task(&mut self, task_id: &String) -> (r: Result<
        TaskCompletionResponse,
        TaskError,
    >)
        requires
            old(self).wf(),
        ensures
            final (self).wf(),
            final (self).config == old(self).config,
            final (self).current_worker == old(self).current_worker,
            final (self).running == old(self).running,
            final (self).start_time == old(self).start_time,
            final (self).workers@.len() == old(self).workers@.len(),
            (forall|i: int|
                0 <= i < old(self).workers@.len() ==> !(#[trigger] old(self).workers@[i]).store()
                    .contains_key(task_id@)) ==> {
                &&& r == Result::<TaskCompletionResponse, TaskError>::Err(
                    TaskError::TaskNotFound { id: *task_id },
                )
                &&& *final (self) == *old(self)
            },
            forall|i: int|
                0 <= i < old(self).workers@.len() && (#[trigger] old(self).workers@[i]).store()
                    .contains_key(task_id@) && (forall|j: int|
                    0 <= j < i ==> !(#[trigger] old(self).workers@[j]).store().contains_key(
                        task_id@,
                    )) ==> {
                    let w = old(self).workers@[i];
                    let before = w.store()[task_id@];
                    &&& (before.status != TaskStatus::Processing ==> {
                        &&& r == Result::<TaskCompletionResponse, TaskError>::Err(
                            TaskError::InvalidStatusTransition {
                                current: before.status,
                                requested: TaskStatus::Completed,
                            },
                        )
                        &&& final (self).workers@ == old(self).workers@
                    })
                    &&& (before.status == TaskStatus::Processing ==> {
                        let w2 = final (self).workers@[i];
                        let after = w2.store()[task_id@];
                        &&& (r matches Ok(resp) && resp.id == *task_id && resp.status
                            == TaskStatus::Completed)
                        &&& (forall|j: int|
                            0 <= j < old(self).workers@.len() && j != i
                                ==> #[trigger] final (self).workers@[j] == old(self).workers@[j])
                        &&& w2.store() == w.store().insert(task_id@, after)
                        &&& is_completed_outcome(before, after)
                        &&& w2.queue == w.queue
                        &&& w2.tasks_processed == w.tasks_processed
                        &&& w2.tasks_completed == crate::worker::sat_inc(w.tasks_completed)
                        &&& w2.tasks_failed == w.tasks_failed
                        &&& w2.running == w.running
                        &&& w.same_identity(w2)
                    })
                },
    {
        let mut i: usize = 0;
        while i < self.workers.len()
            invariant
                old(self).wf(),
                *self == *old(self),
                i <= self.workers@.len(),
                forall|j: int|
                    0 <= j < i as int ==> !(#[trigger] self.workers@[j]).store().contains_key(
                        task_id@,
                    ),
            decreases self.workers@.len() - i,
        {
            let present = {
                let found = self.workers[i].get_task(task_id);
                match found {
                    Some(_) => true,
                    None => false,
                }
            };
            if present {
                let ghost pre = self.workers@;
                let mut w = self.workers.remove(i);
                let outcome = w.complete_task(task_id);
                self.workers.insert(i, w);
                proof {
                    assert(self.workers@ =~= pre.update(i as int, self.workers@[i as int]));
                }
                match outcome {
                    Ok(_) => {
                        return Ok(
                            TaskCompletionResponse {
                                id: task_id.clone(),
                                status: TaskStatus::Completed,
                                message: String::from_str("task completed successfully"),
                            },
                        );
                    },
                    Err(e) => {
                        proof {
                            assert(self.workers@ =~= old(self).workers@);
                        }
                        return Err(e);
                    },
                }
            }
            i = i + 1;
        }
        Err(TaskError::TaskNotFound { id: task_id.clone() })
    }
}

/// The fields of a worker's statistics snapshot that come from its state
/// (everything but the wall-clock uptime).
pub open spec fn stats_match(w: Worker, s: WorkerStats) -> bool {
    &&& s.id == w.id
    &&& s.tasks_processed == w.tasks_processed
    &&& s.tasks_completed == w.tasks_completed
    &&& s.tasks_failed == w.tasks_failed
    &&& s.current_load == w.queue@.len()
    &&& s.is_healthy == w.running
}

/// The saturating sum of a counter over a sequence of workers.
pub open spec fn sum_sat(ws: Seq<Worker>, f: spec_fn(Worker) -> u64) -> u64
    decreases ws.len(),
{
    if ws.len() == 0 {
        0
    } else {
        sat_add(sum_sat(ws.drop_last(), f), f(ws.last()))
    }
}

impl TaskOrchestrator {
    /// Aggregate statistics: one snapshot per worker, and the saturating
    /// sums of the per-worker counters. The uptime comes from the wall
    /// clock, of which nothing is assumed.
    pub fn get_system_stats(&self) -> (r: SystemStats)
        ensures
            r.total_workers == self.config.num_workers,
            r.workers@.len() == self.workers@.len(),
            forall|i: int|
                0 <= i < self.workers@.len() ==> stats_match(
                    #[trigger] self.workers@[i],
                    r.workers@[i],
                ),
            r.total_tasks_processed == sum_sat(self.workers@, |w: Worker| w.tasks_processed),
            r.total_tasks_completed == sum_sat(self.workers@, |w: Worker| w.tasks_completed),
            r.total_tasks_failed == sum_sat(self.workers@, |w: Worker| w.tasks_failed),
    {
        let mut total_processed: u64 = 0;
        let mut total_completed: u64 = 0;
        let mut total_failed: u64 = 0;
        let mut worker_stats: Vec<WorkerStats> = Vec::new();
        let mut i: usize = 0;
        while i < self.workers.len()
            invariant
                i <= self.workers@.len(),
                worker_stats@.len() == i,
                forall|j: int|
                    0 <= j < i as int ==> stats_match(
                        #[trigger] self.workers@[j],
                        worker_stats@[j],
                    ),
                total_processed == sum_sat(
                    self.workers@.take(i as int),
                    |w: Worker| w.tasks_processed,
                ),
                total_completed == sum_sat(
                    self.workers@.take(i as int),
                    |w: Worker| w.tasks_completed,
                ),
                total_failed == sum_sat(self.workers@.take(i as int), |w: Worker| w.tasks_failed),
            decreases self.workers@.len() - i,
        {
            let stats = self.workers[i].get_stats();
            total_processed = total_processed.saturating_add(stats.tasks_processed);
            total_completed = total_completed.saturating_add(stats.tasks_completed);
            total_failed = total_failed.saturating_add(stats.tasks_failed);
            worker_stats.push(stats);
            i = i + 1;
            proof {
                assert(self.workers@.take(i as int).drop_last() =~= self.workers@.take(
                    i as int - 1,
                ));
                assert(self.workers@.take(i as int).last() == self.workers@[i as int - 1]);
            }
        }
        proof {
            assert(self.workers@.take(i as int) =~= self.workers@);
        }
        let now = crate::types::now_timestamp();
        let uptime: u64 = match now.checked_sub(self.start_time) {
            Some(d) => if d >= 0 {
                d as u64
            } else {
                0
            },
            None => 0,
        };
        SystemStats {
            total_tasks_processed: total_processed,
            total_tasks_completed: total_completed,
            total_tasks_failed: total_failed,
            total_workers: self.config.num_workers,
            uptime_seconds: uptime,
            workers: worker_stats,
        }
    }
}

} // verus!
