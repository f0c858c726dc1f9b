//! A worker: a task store, a FIFO queue of pending tasks, and counters.
//!
//! The worker is the sequential core of a processing node. Its concurrent
//! shell (the wake/notify loops that call `drain_queue`, and the signal
//! handling that calls `start` and `stop`) lives outside the library; every
//! decision those loops take is made here, under contract.

use vstd::prelude::*;

verus! {

use vstd::string::StringExecFns;
use crate::calculations::{Calculator, calculation_in_range, calculation_result};
use crate::store::{TaskMap, store_contents, store_new, store_contains, store_get, store_insert};
use crate::types::{
    clone_task,
    SystemError,
    Task,
    TaskError,
    TaskStatus,
    WorkerStats,
};

/// A counter bumped by one, saturating at the top of the range.
pub open spec fn sat_inc(c: u64) -> u64 {
    if c == u64::MAX {
        u64::MAX
    } else {
        (c + 1) as u64
    }
}

/// `a + b`, saturating at the top of the range.
pub open spec fn sat_add(a: u64, b: u64) -> u64 {
    if a + b > u64::MAX {
        u64::MAX
    } else {
        (a + b) as u64
    }
}

/// What a worker's processing loop leaves in the store for a task whose
/// calculation succeeded: the same task, now `Processing`, with the exact
/// calculation result stored.
pub open spec fn is_processing_outcome(t: Task, u: Task) -> bool {
    &&& u.id == t.id
    &&& u.title == t.title
    &&& u.priority == t.priority
    &&& u.created_at == t.created_at
    &&& u.data == t.data
    &&& u.status == TaskStatus::Processing
    &&& (u.result matches Some(s) && s@ == calculation_result(t.data.operation, t.data.input))
    &&& u.error_message == t.error_message
    &&& u.completed_at == t.completed_at
}

/// What a worker's processing loop leaves in the store for a task whose
/// calculation failed: the same task, now `Failed`, with an error
/// description stored.
pub open spec fn is_failed_outcome(t: Task, u: Task) -> bool {
    &&& u.id == t.id
    &&& u.title == t.title
    &&& u.priority == t.priority
    &&& u.created_at == t.created_at
    &&& u.data == t.data
    &&& u.status == TaskStatus::Failed
    &&& u.error_message is Some
    &&& u.result == t.result
    &&& u.completed_at == t.completed_at
}

/// Either of the two outcomes above, selected by whether the task's input
/// is within its operation's range.
pub open spec fn is_processed_outcome(t: Task, u: Task) -> bool {
    if calculation_in_range(t.data.operation, t.data.input) {
        is_processing_outcome(t, u)
    } else {
        is_failed_outcome(t, u)
    }
}

/// What an explicit completion request leaves in the store: the same task,
/// now `Completed`, with a completion timestamp.
pub open spec fn is_completed_outcome(t: Task, u: Task) -> bool {
    &&& u.id == t.id
    &&& u.title == t.title
    &&& u.priority == t.priority
    &&& u.created_at == t.created_at
    &&& u.data == t.data
    &&& u.status == TaskStatus::Completed
    &&& u.completed_at is Some
    &&& u.result == t.result
    &&& u.error_message == t.error_message
}

/// Submitting the same task id twice to the same worker: after one
/// successful add of `t` the worker holds `t.id`, so by `add_task`'s
/// contract any further task carrying that id is refused with
/// `TaskAlreadyExists` and the worker is left unchanged.
pub proof fn lemma_duplicate_id_refused(before: Worker, after: Worker, t: Task, u: Task)
    requires
        after.store() == before.store().insert(t.id@, t),
        u.id@ == t.id@,
    ensures
        after.store().contains_key(u.id@),
{
}

/// Each task added under a fresh id grows its worker's store by exactly
/// one entry, is itself retrievable under that id, and leaves every other
/// entry untouched: of a batch of creations with distinct ids, none is
/// lost and none overwrites another.
pub proof fn lemma_fresh_insert_counts(m: Map<Seq<char>, Task>, id: Seq<char>, t: Task)
    requires
        m.dom().finite(),
        !m.contains_key(id),
    ensures
        m.insert(id, t).dom().len() == m.dom().len() + 1,
        m.insert(id, t)[id] == t,
        forall|k: Seq<char>| m.contains_key(k) ==> m.insert(id, t)[k] == m[k] && k != id,
{
    assert(m.insert(id, t).dom() =~= m.dom().insert(id));
    vstd::set::axiom_set_insert_len(m.dom(), id);
}

#[derive(Debug, Clone)]
pub struct WorkerConfig {
    pub id: usize,
    pub num_threads: usize,
}

/// A worker node: owns a store of every task ever assigned to it, a FIFO
/// queue of tasks awaiting processing, and running counters.
pub struct Worker {
    pub id: usize,
    pub config: WorkerConfig,
    pub tasks: TaskMap,
    pub queue: Vec<Task>,
    pub tasks_processed: u64,
    pub tasks_completed: u64,
    pub tasks_failed: u64,
    pub start_time: i64,
    pub running: bool,
}

impl Worker {
    /// The worker's store, as a map from task id to stored task.
    pub open spec fn store(self) -> Map<Seq<char>, Task> {
        store_contents(self.tasks)
    }

    /// Well-formedness: every queued task is already in the store under its
    /// own id, and no two queued tasks share an id.
    pub open spec fn wf(self) -> bool {
        &&& forall|i: int|
            0 <= i < self.queue@.len() ==> self.store().contains_key(
                (#[trigger] self.queue@[i]).id@,
            )
        &&& forall|i: int, j: int|
            0 <= i < j < self.queue@.len() ==> (#[trigger] self.queue@[i]).id@ != (
            #[trigger] self.queue@[j]).id@
    }

    /// The parts of the worker that queue processing never touches.
    pub open spec fn same_identity(self, other: Worker) -> bool {
        &&& other.id == self.id
        &&& other.config.id == self.config.id
        &&& other.config.num_threads == self.config.num_threads
        &&& other.start_time == self.start_time
    }

    /// Create a new worker with an empty store and queue.
    pub fn new(id: usize, num_threads: usize) -> (r: Self)
        ensures
            r.id == id,
            r.config.id == id,
            r.config.num_threads == num_threads,
            r.store().dom() == Set::<Seq<char>>::empty(),
            r.queue@.len() == 0,
            r.tasks_processed == 0,
            r.tasks_completed == 0,
            r.tasks_failed == 0,
            !r.running,
            r.wf(),
    {
        Worker {
            id,
            config: WorkerConfig { id, num_threads },
            tasks: store_new(),
            queue: Vec::new(),
            tasks_processed: 0,
            tasks_completed: 0,
            tasks_failed: 0,
            start_time: crate::types::now_timestamp(),
            running: false,
        }
    }

    /// Move the worker to `Running`. Fails, changing nothing else, if it
    /// already is.
    pub fn start(&mut self) -> (r: Result<(), SystemError>)
        ensures
            final (self).running,
            old(self).running ==> (r matches Err(e) && e is Worker),
            !old(self).running ==> r is Ok,
            final (self).tasks == old(self).tasks,
            final (self).queue == old(self).queue,
            final (self).tasks_processed == old(self).tasks_processed,
            final (self).tasks_completed == old(self).tasks_completed,
            final (self).tasks_failed == old(self).tasks_failed,
            old(self).same_identity(*final (self)),
    {
        if self.running {
            return Err(SystemError::Worker { message: String::from_str("worker already running") });
        }
        self.running = true;
        Ok(())
    }

    /// Move the worker to `NotRunning`. Idempotent.
    pub fn stop(&mut self)
        ensures
            !final (self).running,
            final (self).tasks == old(self).tasks,
            final (self).queue == old(self).queue,
            final (self).tasks_processed == old(self).tasks_processed,
            final (self).tasks_completed == old(self).tasks_completed,
            final (self).tasks_failed == old(self).tasks_failed,
            old(self).same_identity(*final (self)),
    {
        self.running = false;
    }

    /// Add a task: validate it, refuse a duplicate id, and otherwise store
    /// it and append it to the queue.
    pub fn add_task(&mut self, task: Task) -> (r: Result<(), TaskError>)
        requires
            old(self).wf(),
        ensures
            final (self).wf(),
            !task.is_valid() ==> {
                &&& (r matches Err(e) && e is CalculationError)
                &&& *final (self) == *old(self)
            },
            task.is_valid() && old(self).store().contains_key(task.id@) ==> {
                &&& r == Result::<(), TaskError>::Err(TaskError::TaskAlreadyExists { id: task.id })
                &&& *final (self) == *old(self)
            },
            task.is_valid() && !old(self).store().contains_key(task.id@) ==> {
                &&& r is Ok
                &&& final (self).store() == old(self).store().insert(task.id@, task)
                &&& final (self).queue@ == old(self).queue@.push(task)
                &&& final (self).tasks_processed == old(self).tasks_processed
                &&& final (self).tasks_completed == old(self).tasks_completed
                &&& final (self).tasks_failed == old(self).tasks_failed
                &&& final (self).running == old(self).running
                &&& old(self).same_identity(*final (self))
            },
    {
        match task.validate() {
            Ok(()) => {},
            Err(e) => {
                return Err(
                    TaskError::CalculationError {
                        message: String::from_str("task validation failed: ").concat(
                            e.message().as_str(),
                        ),
                    },
                );
            },
        }
        if store_contains(&self.tasks, &task.id) {
            return Err(TaskError::TaskAlreadyExists { id: task.id });
        }
        let copy = clone_task(&task);
        let key = task.id.clone();
        store_insert(&mut self.tasks, key, copy);
        self.queue.push(task);
        Ok(())
    }

    /// Look a task up by id. No side effects.
    pub fn get_task(&self, task_id: &String) -> (r: Option<Task>)
        ensures
            r == if self.store().contains_key(task_id@) {
                Some(self.store()[task_id@])
            } else {
                None::<Task>
            },
    {
        store_get(&self.tasks, task_id)
    }

    /// Complete a task. Returns `Ok(true)` and moves the task from
    /// `Processing` to `Completed` when it is here and in `Processing`;
    /// an invalid-transition error when it is here in any other status;
    /// `Ok(false)` when it is not here at all.
    pub fn complete_task(&mut self, task_id: &String) -> (r: Result<bool, TaskError>)
        requires
            old(self).wf(),
        ensures
            final (self).wf(),
            !old(self).store().contains_key(task_id@) ==> {
                &&& r == Result::<bool, TaskError>::Ok(false)
                &&& *final (self) == *old(self)
            },
            old(self).store().contains_key(task_id@) && old(self).store()[task_id@].status
                != TaskStatus::Processing ==> {
                &&& r == Result::<bool, TaskError>::Err(
                    TaskError::InvalidStatusTransition {
                        current: old(self).store()[task_id@].status,
                        requested: TaskStatus::Completed,
                    },
                )
                &&& *final (self) == *old(self)
            },
            old(self).store().contains_key(task_id@) && old(self).store()[task_id@].status
                == TaskStatus::Processing ==> {
                let before = old(self).store()[task_id@];
                let after = final (self).store()[task_id@];
                &&& r == Result::<bool, TaskError>::Ok(true)
                &&& final (self).store() == old(self).store().insert(task_id@, after)
                &&& is_completed_outcome(before, after)
                &&& final (self).queue == old(self).queue
                &&& final (self).tasks_processed == old(self).tasks_processed
                &&& final (self).tasks_completed == sat_inc(old(self).tasks_completed)
                &&& final (self).tasks_failed == old(self).tasks_failed
                &&& final (self).running == old(self).running
                &&& old(self).same_identity(*final (self))
            },
    {
        let found = store_get(&self.tasks, task_id);
        match found {
            None => Ok(false),
            Some(task) => {
                let mut task = task;
                match task.set_completed() {
                    Ok(()) => {
                        let key = task_id.clone();
                        store_insert(&mut self.tasks, key, task);
                        self.tasks_completed = self.tasks_completed.saturating_add(1);
                        Ok(true)
                    },
                    Err(e) => Err(e),
                }
            },
        }
    }

    /// Process the task at the head of the queue, if any: run its
    /// calculation and overwrite the stored task with the outcome. Returns
    /// whether a task was processed.
    pub fn process_one(&mut self) -> (did: bool)
        requires
            old(self).wf(),
        ensures
            final (self).wf(),
            old(self).queue@.len() == 0 ==> !did && *final (self) == *old(self),
            old(self).queue@.len() > 0 ==> {
                let t = old(self).queue@[0];
                let after = final (self).store()[t.id@];
                &&& did
                &&& final (self).queue@ == old(self).queue@.subrange(
                    1,
                    old(self).queue@.len() as int,
                )
                &&& final (self).store() == old(self).store().insert(t.id@, after)
                &&& is_processed_outcome(t, after)
                &&& final (self).tasks_processed == sat_inc(old(self).tasks_processed)
                &&& final (self).tasks_completed == old(self).tasks_completed
                &&& final (self).tasks_failed == (if calculation_in_range(
                    t.data.operation,
                    t.data.input,
                ) {
                    old(self).tasks_failed
                } else {
                    sat_inc(old(self).tasks_failed)
                })
                &&& final (self).running == old(self).running
                &&& old(self).same_identity(*final (self))
            },
    {
        if self.queue.len() == 0 {
            return false;
        }
        let mut task = self.queue.remove(0);
        let outcome = Calculator::calculate(task.data.operation, task.data.input);
        match outcome {
            Ok(result) => {
                task.set_processing(result);
                let key = task.id.clone();
                store_insert(&mut self.tasks, key, task);
                self.tasks_processed = self.tasks_processed.saturating_add(1);
            },
            Err(e) => {
                task.set_failed(e.message());
                let key = task.id.clone();
                store_insert(&mut self.tasks, key, task);
                self.tasks_processed = self.tasks_processed.saturating_add(1);
                self.tasks_failed = self.tasks_failed.saturating_add(1);
            },
        }
        true
    }

    /// Drain the whole queue, processing every queued task in order: the
    /// work one processing loop performs per wakeup.
    pub fn drain_queue(&mut self)
        requires
            old(self).wf(),
        ensures
            final (self).wf(),
            final (self).queue@.len() == 0,
            final (self).tasks_processed == sat_add(
                old(self).tasks_processed,
                old(self).queue@.len() as u64,
            ),
            final (self).tasks_completed == old(self).tasks_completed,
            final (self).running == old(self).running,
            old(self).same_identity(*final (self)),
            final (self).store().dom() == old(self).store().dom(),
            forall|i: int|
                0 <= i < old(self).queue@.len() ==> is_processed_outcome(
                    #[trigger] old(self).queue@[i],
                    final (self).store()[old(self).queue@[i].id@],
                ),
            forall|k: Seq<char>|
                old(self).store().contains_key(k) && (forall|i: int|
                    0 <= i < old(self).queue@.len() ==> (#[trigger] old(self).queue@[i]).id@
                        != k) ==> final (self).store()[k] == old(self).store()[k],
            (forall|i: int|
                0 <= i < old(self).queue@.len() ==> calculation_in_range(
                    (#[trigger] old(self).queue@[i]).data.operation,
                    old(self).queue@[i].data.input,
                )) ==> final (self).tasks_failed == old(self).tasks_failed,
    {
        let ghost orig = *self;
        let initial_len: usize = self.queue.len();
        let ghost n = self.queue@.len() as int;
        let mut steps: usize = 0;
        proof {
            assert(self.queue@ =~= orig.queue@.subrange(0, n));
        }
        while self.queue.len() != 0
            invariant
                self.wf(),
                orig.wf(),
                0 <= steps <= n,
                n == orig.queue@.len(),
                n == initial_len,
                self.queue@ == orig.queue@.subrange(steps as int, n),
                self.tasks_processed == sat_add(orig.tasks_processed, steps as u64),
                self.tasks_completed == orig.tasks_completed,
                self.running == orig.running,
                orig.same_identity(*self),
                self.store().dom() == orig.store().dom(),
                forall|i: int|
                    0 <= i < steps ==> is_processed_outcome(
                        #[trigger] orig.queue@[i],
                        self.store()[orig.queue@[i].id@],
                    ),
                forall|k: Seq<char>|
                    orig.store().contains_key(k) && (forall|i: int|
                        0 <= i < steps ==> (#[trigger] orig.queue@[i]).id@ != k)
                        ==> self.store()[k] == orig.store()[k],
                (forall|i: int|
                    0 <= i < steps ==> calculation_in_range(
                        (#[trigger] orig.queue@[i]).data.operation,
                        orig.queue@[i].data.input,
                    )) ==> self.tasks_failed == orig.tasks_failed,
            decreases n - steps,
        {
            proof {
                assert(self.queue@[0] == orig.queue@[steps as int]);
            }
            let ghost before = *self;
            let did = self.process_one();
            steps = steps + 1;
            proof {
                assert(self.queue@ =~= orig.queue@.subrange(steps as int, n));
                assert(self.store().dom() =~= orig.store().dom());
            }
        }
        proof {
            assert(steps == n);
        }
    }

    /// A snapshot of the worker's counters, queue depth and health. The
    /// uptime comes from the wall clock, of which nothing is assumed.
    pub fn get_stats(&self) -> (r: WorkerStats)
        ensures
            r.id == self.id,
            r.tasks_processed == self.tasks_processed,
            r.tasks_completed == self.tasks_completed,
            r.tasks_failed == self.tasks_failed,
            r.current_load == self.queue@.len(),
            r.is_healthy == self.running,
    {
        let now = crate::types::now_timestamp();
        let uptime: u64 = match now.checked_sub(self.start_time) {
            Some(d) => if d >= 0 {
                d as u64
            } else {
                0
            },
            None => 0,
        };
        WorkerStats {
            id: self.id,
            tasks_processed: self.tasks_processed,
            tasks_completed: self.tasks_completed,
            tasks_failed: self.tasks_failed,
            current_load: self.queue.len(),
            uptime_seconds: uptime,
            is_healthy: self.running,
        }
    }
}

} // verus!
