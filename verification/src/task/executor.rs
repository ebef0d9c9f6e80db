//! The scheduler: the table of live tasks, the bounded ready queue and the
//! cache of wake handles, driven one step at a time.
//!
//! A step handles the oldest notification of the ready queue. Interrupts
//! and tasks reach the scheduler between two steps: a wake handle is
//! invoked with `TaskWaker::wake_task`, and tasks that running tasks have
//! created are spawned with `Executor::adopt`.

use super::queue::{id_queue_is_empty, id_queue_len, new_id_queue, pop_id, push_id, ready_ids, ready_limit};
use super::{Context, PollState, Task, TaskId, TaskWaker};
use crossbeam_queue::ArrayQueue;
use std::collections::BTreeMap;
use vstd::prelude::*;

verus! {

/// How many wake notifications the ready queue holds at most.
pub const MAX_AMOUNT_OF_QUEUED_TASKS: usize = 128;

/// Why a task could not be spawned.
#[derive(Clone, Copy, Debug, PartialEq, Eq, Structural)]
pub enum SpawnError {
    /// A live task already runs under the identifier.
    DuplicateTaskId,
    /// The ready queue holds `MAX_AMOUNT_OF_QUEUED_TASKS` notifications.
    QueueFull,
}

/// The ready queue holds `MAX_AMOUNT_OF_QUEUED_TASKS` notifications and
/// cannot take another.
#[derive(Clone, Copy, Debug, PartialEq, Eq, Structural)]
pub struct QueueFull;

/// The part of the scheduler that task creation and wake handles reach: the
/// table of live tasks and the bounded queue of tasks that await a poll.
pub struct Spawner {
    tasks: BTreeMap<u64, Task>,
    task_queue: ArrayQueue<u64>,
}

impl Spawner {
    /// The live tasks, by the number of their identifier.
    pub closed spec fn tasks(&self) -> Map<u64, Task> {
        self.tasks@
    }

    /// The identifiers that await a poll, oldest first. An identifier may
    /// occur more than once, and may outlive its task.
    pub closed spec fn ready(&self) -> Seq<u64> {
        ready_ids(self.task_queue)
    }

    /// The capacity the ready queue was created with.
    pub closed spec fn limit(&self) -> nat {
        ready_limit(self.task_queue)
    }

    /// The ready queue is the bounded one, and every task is filed under its
    /// own identifier.
    pub open spec fn wf(&self) -> bool {
        &&& self.limit() == MAX_AMOUNT_OF_QUEUED_TASKS
        &&& self.ready().len() <= MAX_AMOUNT_OF_QUEUED_TASKS
        &&& self.tasks().dom().finite()
        &&& forall|k: u64| #[trigger] self.tasks().contains_key(k) ==> self.tasks()[k].id()@ == k
    }

    pub fn new() -> (spawner: Spawner)
        ensures
            spawner.wf(),
            spawner.tasks() == Map::<u64, Task>::empty(),
            spawner.ready() == Seq::<u64>::empty(),
    {
        Spawner { tasks: BTreeMap::new(), task_queue: new_id_queue(MAX_AMOUNT_OF_QUEUED_TASKS) }
    }

    /// Whether a live task runs under the identifier.
    pub fn contains(&self, id: TaskId) -> (live: bool)
        ensures
            live == self.tasks().contains_key(id@),
    {
        broadcast use vstd::std_specs::btree::group_btree_axioms;

        let key = id.as_u64();
        self.tasks.contains_key(&key)
    }

    /// How many tasks are live.
    pub fn task_count(&self) -> (count: usize)
        ensures
            count == self.tasks().len(),
    {
        broadcast use vstd::std_specs::btree::group_btree_axioms;

        self.tasks.len()
    }

    /// How many notifications await a poll.
    pub fn ready_count(&self) -> (count: usize)
        ensures
            count == self.ready().len(),
    {
        id_queue_len(&self.task_queue)
    }

    /// Files the task under its identifier and makes it ready for its first
    /// poll. A duplicate identifier and a full ready queue are fatal to the
    /// system, so both are excluded here; `try_spawn` reports them instead.
    pub fn spawn(&mut self, task: Task)
        requires
            old(self).wf(),
            !old(self).tasks().contains_key(task.id()@),
            old(self).ready().len() < MAX_AMOUNT_OF_QUEUED_TASKS,
        ensures
            final(self).wf(),
            final(self).tasks() == old(self).tasks().insert(task.id()@, task),
            final(self).ready() == old(self).ready().push(task.id()@),
    {
        broadcast use vstd::std_specs::btree::group_btree_axioms;

        let key = task.task_id().as_u64();
        let _ = self.tasks.insert(key, task);
        let _ = push_id(&mut self.task_queue, key);
    }

    /// Spawns the task if that is possible, and says why if it is not. A task
    /// that cannot be spawned is dropped and the scheduler is left as it was.
    pub fn try_spawn(&mut self, task: Task) -> (spawned: Result<(), SpawnError>)
        requires
            old(self).wf(),
        ensures
            final(self).wf(),
            old(self).tasks().contains_key(task.id()@) ==> (spawned matches Err(
                SpawnError::DuplicateTaskId,
            )),
            !old(self).tasks().contains_key(task.id()@) && old(self).ready().len()
                >= MAX_AMOUNT_OF_QUEUED_TASKS ==> (spawned matches Err(SpawnError::QueueFull)),
            !old(self).tasks().contains_key(task.id()@) && old(self).ready().len()
                < MAX_AMOUNT_OF_QUEUED_TASKS ==> (spawned is Ok),
            spawned is Err ==> final(self).tasks() == old(self).tasks(),
            spawned is Err ==> final(self).ready() == old(self).ready(),
            spawned is Ok ==> final(self).tasks() == old(self).tasks().insert(task.id()@, task),
            spawned is Ok ==> final(self).ready() == old(self).ready().push(task.id()@),
    {
        if self.contains(task.task_id()) {
            return Err(SpawnError::DuplicateTaskId);
        }
        if self.ready_count() >= MAX_AMOUNT_OF_QUEUED_TASKS {
            return Err(SpawnError::QueueFull);
        }
        self.spawn(task);
        Ok(())
    }
}

impl TaskWaker {
    /// Invokes the handle: the identifier of its task joins the end of the
    /// ready queue, whether or not the task is still live and whether or not
    /// it is queued already. A full ready queue is fatal to the system and is
    /// excluded here; `try_wake_task` reports it instead.
    pub fn wake_task(&self, spawner: &mut Spawner)
        requires
            old(spawner).wf(),
            old(spawner).ready().len() < MAX_AMOUNT_OF_QUEUED_TASKS,
        ensures
            final(spawner).wf(),
            final(spawner).tasks() == old(spawner).tasks(),
            final(spawner).ready() == old(spawner).ready().push(self.id()@),
    {
        let _ = push_id(&mut spawner.task_queue, self.task_id().as_u64());
    }

    /// Invokes the handle if the ready queue has room, and reports a full
    /// queue without changing anything.
    pub fn try_wake_task(&self, spawner: &mut Spawner) -> (woken: Result<(), QueueFull>)
        requires
            old(spawner).wf(),
        ensures
            final(spawner).wf(),
            final(spawner).tasks() == old(spawner).tasks(),
            woken is Ok <==> old(spawner).ready().len() < MAX_AMOUNT_OF_QUEUED_TASKS,
            woken is Ok ==> final(spawner).ready() == old(spawner).ready().push(self.id()@),
            woken is Err ==> final(spawner).ready() == old(spawner).ready(),
    {
        match push_id(&mut spawner.task_queue, self.task_id().as_u64()) {
            Ok(()) => Ok(()),
            Err(_) => Err(QueueFull),
        }
    }
}

/// What became of the notification at the front of the ready queue.
#[derive(Clone, Copy, Debug, PartialEq, Eq, Structural)]
pub enum Polled {
    /// The ready queue was empty.
    Idle,
    /// The notification was for a task that has finished; it was discarded.
    Stale(TaskId),
    /// The task was polled and has suspended.
    Pending(TaskId),
    /// The task was polled, has finished and was retired.
    Completed(TaskId),
}

/// The account of one scheduling step.
pub struct PollReport {
    pub polled: Polled,
    /// The tasks woken during the poll, in the order of the wakes.
    pub woken: Vec<TaskId>,
    /// Whether the ready queue could not take all of `woken`: fatal.
    pub overflowed: bool,
    /// The task that was polled, as the poll left it; none if the step
    /// polled no task.
    pub task: Ghost<Option<Task>>,
}

/// What the core should do when the ready queue has been drained.
#[derive(Clone, Copy, Debug, PartialEq, Eq, Structural)]
pub enum IdleAction {
    /// Nothing is ready: enable interrupts and halt, as one step.
    Halt,
    /// A wake arrived in between: enable interrupts and go on.
    Resume,
}

/// How a bounded run of the scheduler ended.
#[derive(Clone, Copy, Debug, PartialEq, Eq, Structural)]
pub enum RunState {
    /// No task is left.
    Finished,
    /// Tasks are left, none is ready: the core may idle.
    Idle,
    /// The step budget is spent and notifications remain.
    Busy,
    /// A wake found the ready queue full: fatal.
    Overflowed,
}

/// The numbers of a sequence of task identifiers.
pub open spec fn id_numbers(ids: Seq<TaskId>) -> Seq<u64> {
    ids.map_values(|id: TaskId| id@)
}

/// How many of `woken` wakes a ready queue of length `ready_len` can take.
pub open spec fn wakes_that_fit(ready_len: nat, woken: nat) -> nat {
    if ready_len + woken <= MAX_AMOUNT_OF_QUEUED_TASKS {
        woken
    } else {
        (MAX_AMOUNT_OF_QUEUED_TASKS - ready_len) as nat
    }
}

/// The ready queue after the wakes of one poll were delivered in order; the
/// wakes that found the queue full are missing.
pub open spec fn delivered(ready: Seq<u64>, woken: Seq<TaskId>) -> Seq<u64>
    recommends
        ready.len() <= MAX_AMOUNT_OF_QUEUED_TASKS,
{
    ready + id_numbers(woken).take(wakes_that_fit(ready.len(), woken.len()) as int)
}

/// The number of the identifier a report is about, if it is about one.
pub open spec fn polled_number(polled: Polled) -> Option<u64> {
    match polled {
        Polled::Idle => None,
        Polled::Stale(id) => Some(id@),
        Polled::Pending(id) => Some(id@),
        Polled::Completed(id) => Some(id@),
    }
}

/// Whether the report says that the task numbered `k` has finished.
pub open spec fn completes(report: PollReport, k: u64) -> bool {
    report.polled is Completed && polled_number(report.polled) == Some(k)
}

/// Whether one of the reports says that the task numbered `k` has finished.
pub open spec fn completed_in(reports: Seq<PollReport>, k: u64) -> bool {
    exists|i: int| 0 <= i < reports.len() && completes(#[trigger] reports[i], k)
}

/// Whether the tasks of `after` are exactly those tasks of `before` that no
/// report among `reports` says have finished.
pub open spec fn retired_by(
    before: Map<u64, Task>,
    after: Map<u64, Task>,
    reports: Seq<PollReport>,
) -> bool {
    forall|k: u64|
        #![trigger before.contains_key(k)]
        #![trigger after.contains_key(k)]
        after.contains_key(k) <==> (before.contains_key(k) && !completed_in(reports, k))
}

proof fn lemma_completed_in_push(reports: Seq<PollReport>, report: PollReport, k: u64)
    ensures
        completed_in(reports.push(report), k) <==> completed_in(reports, k) || completes(report, k),
{
    let longer = reports.push(report);
    if completed_in(reports, k) {
        let i = choose|i: int| 0 <= i < reports.len() && completes(#[trigger] reports[i], k);
        assert(longer[i] == reports[i]);
    }
    if completes(report, k) {
        assert(longer[reports.len() as int] == report);
    }
    if completed_in(longer, k) {
        let i = choose|i: int| 0 <= i < longer.len() && completes(#[trigger] longer[i], k);
        if i < reports.len() {
            assert(longer[i] == reports[i]);
        }
    }
}

/// Whether the task table `after` is the table `before` grown by tasks
/// with the identifiers `ids`: what was there is there unchanged, and what
/// is new goes by one of the identifiers.
pub open spec fn grown_by(before: Map<u64, Task>, after: Map<u64, Task>, ids: Seq<u64>) -> bool {
    &&& forall|k: u64|
        #![trigger before.contains_key(k)]
        before.contains_key(k) ==> after.contains_key(k) && after[k] == before[k]
    &&& forall|k: u64|
        #![trigger after.contains_key(k)]
        after.contains_key(k) ==> before.contains_key(k) || ids.contains(k)
    &&& forall|i: int| 0 <= i < ids.len() ==> after.contains_key(#[trigger] ids[i])
}

/// The identifiers of a row of tasks, in order.
pub open spec fn ids_of(tasks: Seq<Task>) -> Seq<TaskId> {
    tasks.map_values(|task: Task| task.id())
}

/// A task table with a row of tasks filed in it, each under its identifier.
pub open spec fn tasks_with(tasks: Map<u64, Task>, children: Seq<Task>) -> Map<u64, Task>
    decreases children.len(),
{
    if children.len() == 0 {
        tasks
    } else {
        tasks_with(tasks, children.drop_last()).insert(children.last().id()@, children.last())
    }
}

/// How many of the `children` can be spawned one after the other, given the
/// task table and the length of the ready queue: spawning goes on until a
/// child finds its identifier taken or the ready queue full.
pub open spec fn spawnable(tasks: Map<u64, Task>, ready_len: nat, children: Seq<Task>) -> nat
    decreases children.len(),
{
    if children.len() == 0 || tasks.contains_key(children[0].id()@) || ready_len
        >= MAX_AMOUNT_OF_QUEUED_TASKS {
        0
    } else {
        1 + spawnable(
            tasks.insert(children[0].id()@, children[0]),
            ready_len + 1,
            children.skip(1),
        )
    }
}

/// Owns the live tasks, the ready queue and the cache of wake handles, and
/// drives the tasks one scheduling step at a time.
pub struct Executor {
    spawner: Spawner,
    waker_cache: BTreeMap<u64, TaskWaker>,
}

impl Executor {
    /// The task table and ready queue.
    pub closed spec fn spawner(&self) -> Spawner {
        self.spawner
    }

    /// The live tasks, by the number of their identifier.
    pub open spec fn tasks(&self) -> Map<u64, Task> {
        self.spawner().tasks()
    }

    /// The identifiers that await a poll, oldest first.
    pub open spec fn ready(&self) -> Seq<u64> {
        self.spawner().ready()
    }

    /// The cached wake handles, by the number of their task's identifier.
    pub closed spec fn cached(&self) -> Map<u64, TaskWaker> {
        self.waker_cache@
    }

    /// Every cached handle wakes the task it is filed under.
    pub open spec fn cache_consistent(&self) -> bool {
        forall|k: u64| #[trigger]
            self.cached().contains_key(k) ==> self.cached()[k].id()@ == k
    }

    /// The scheduler between two steps: only live tasks have a cached handle.
    pub open spec fn wf(&self) -> bool {
        &&& self.spawner().wf()
        &&& self.cache_consistent()
        &&& self.cached().dom().subset_of(self.tasks().dom())
    }

    /// The scheduler while the task `id` is out of the table to be polled:
    /// its handle may be cached although the table does not hold the task.
    pub open spec fn wf_while_polling(&self, id: TaskId) -> bool {
        &&& self.spawner().wf()
        &&& self.cache_consistent()
        &&& !self.tasks().contains_key(id@)
        &&& self.cached().dom().subset_of(self.tasks().dom().insert(id@))
    }

    pub fn new() -> (executor: Executor)
        ensures
            executor.wf(),
            executor.tasks() == Map::<u64, Task>::empty(),
            executor.ready() == Seq::<u64>::empty(),
            executor.cached() == Map::<u64, TaskWaker>::empty(),
    {
        Executor { spawner: Spawner::new(), waker_cache: BTreeMap::new() }
    }

    /// Lends out the part of the scheduler that spawns and wakes tasks. The
    /// wake handle cache is untouched while the loan lasts.
    pub fn get_spawner(&mut self) -> (spawner: &mut Spawner)
        ensures
            *spawner == old(self).spawner(),
            final(self).spawner() == *final(spawner),
            final(self).cached() == old(self).cached(),
    {
        &mut self.spawner
    }

    /// The decision between halting and going on: the core may halt exactly
    /// when no notification awaits a poll.
    pub open spec fn idle_decision(&self) -> IdleAction {
        if self.ready().len() == 0 {
            IdleAction::Halt
        } else {
            IdleAction::Resume
        }
    }

    /// Decides between halting and going on. It is to be called with
    /// interrupts disabled, so that no wake can arrive between the decision
    /// and the halt.
    pub fn sleep_if_idle(&self) -> (action: IdleAction)
        ensures
            action == self.idle_decision(),
    {
        if id_queue_is_empty(&self.spawner.task_queue) {
            IdleAction::Halt
        } else {
            IdleAction::Resume
        }
    }

    /// Whether no task is left.
    pub fn is_finished(&self) -> (finished: bool)
        ensures
            finished == (self.tasks().len() == 0),
    {
        self.spawner.task_count() == 0
    }

    /// What one scheduling step may do to a scheduler: `self` is the
    /// scheduler before the step, `next` the one after it.
    ///
    /// An empty ready queue leaves everything as it is. Otherwise the oldest
    /// notification leaves the queue. If its task has finished already, that
    /// is all. If not, the task is polled exactly once: a finished task
    /// leaves the table and the cache together, a suspended one returns to
    /// the table as the poll left it and has its handle cached, and the
    /// wakes of the poll join the ready queue.
    pub open spec fn step_taken(self, next: Executor, report: PollReport) -> bool {
        if self.ready().len() == 0 {
            &&& report.polled == Polled::Idle
            &&& report.task@ is None
            &&& report.woken@.len() == 0
            &&& !report.overflowed
            &&& next.tasks() == self.tasks()
            &&& next.ready() == self.ready()
            &&& next.cached() == self.cached()
        } else if !self.tasks().contains_key(self.ready()[0]) {
            &&& report.polled matches Polled::Stale(id)
            &&& id@ == self.ready()[0]
            &&& report.task@ is None
            &&& report.woken@.len() == 0
            &&& !report.overflowed
            &&& next.tasks() == self.tasks()
            &&& next.ready() == self.ready().skip(1)
            &&& next.cached() == self.cached()
        } else {
            let front = self.ready()[0];
            &&& next.ready() == delivered(self.ready().skip(1), report.woken@)
            &&& report.overflowed == (self.ready().len() - 1 + report.woken@.len()
                > MAX_AMOUNT_OF_QUEUED_TASKS)
            &&& report.task@ matches Some(polled)
            &&& polled.id()@ == front
            &&& polled.polls() == self.tasks()[front].polls() + 1
            &&& match report.polled {
                Polled::Completed(id) => {
                    &&& id@ == front
                    &&& next.tasks() == self.tasks().remove(front)
                    &&& next.cached() == self.cached().remove(front)
                },
                Polled::Pending(id) => {
                    &&& id@ == front
                    &&& next.tasks() == self.tasks().insert(front, polled)
                    &&& next.cached().dom() == self.cached().dom().insert(front)
                },
                _ => false,
            }
        }
    }

    /// Takes one scheduling step: handles the oldest notification of the
    /// ready queue, if there is one. A live task is polled once, with a
    /// fresh context that carries its own wake handle. The report says
    /// whether a task was polled, what it reported and which tasks it woke;
    /// the contract holds for every report a computation can give.
    pub fn poll_ready_task(&mut self) -> (report: PollReport)
        requires
            old(self).wf(),
        ensures
            final(self).wf(),
            old(self).step_taken(*final(self), report),
    {
        broadcast use vstd::std_specs::btree::group_btree_axioms;

        let key = match pop_id(&mut self.spawner.task_queue) {
            Some(key) => key,
            None => {
                return PollReport {
                    polled: Polled::Idle,
                    woken: Vec::new(),
                    overflowed: false,
                    task: Ghost(None),
                };
            },
        };
        let id = TaskId::from_u64(key);
        let mut task = match self.spawner.tasks.remove(&key) {
            Some(task) => task,
            None => {
                assert(self.tasks() =~= old(self).tasks());
                return PollReport {
                    polled: Polled::Stale(id),
                    woken: Vec::new(),
                    overflowed: false,
                    task: Ghost(None),
                };
            },
        };
        proof {
            TaskId::lemma_view_injective(task.id(), id);
        }
        if !self.waker_cache.contains_key(&key) {
            let _ = self.waker_cache.insert(key, TaskWaker::new(id));
        }
        let waker = match self.waker_cache.get(&key) {
            Some(waker) => *waker,
            None => TaskWaker::new(id),
        };
        proof {
            TaskId::lemma_view_injective(waker.id(), id);
        }
        let mut context = Context::from_waker(waker);
        let state = task.poll(&mut context);
        let woken = context.into_woken();
        let ghost polled_task = task;
        let overflowed = self.settle(task, state, &woken);
        let polled = match state {
            PollState::Ready => Polled::Completed(id),
            PollState::Pending => Polled::Pending(id),
        };
        proof {
            if state == PollState::Ready {
                assert(self.tasks() == old(self).tasks().remove(key));
                assert(self.cached() == old(self).cached().remove(key));
            } else {
                assert(self.tasks() =~= old(self).tasks().insert(key, polled_task));
                assert(self.cached().dom() == old(self).cached().dom().insert(key));
            }
        }
        PollReport { polled, woken, overflowed, task: Ghost(Some(polled_task)) }
    }

    /// Drains the ready queue: handles its notifications, oldest first,
    /// those that the polls of this call queue behind among them, until
    /// none is left, and returns one report for each. It ends before the
    /// queue is empty only when a wake finds the ready queue full, or when
    /// as many steps were taken as can be counted.
    pub fn run_ready_task(&mut self) -> (reports: Vec<PollReport>)
        requires
            old(self).wf(),
        ensures
            final(self).wf(),
            steps_taken(*old(self), *final(self), reports@),
            final(self).ready().len() == 0 || (reports@.len() > 0 && reports@.last().overflowed)
                || reports@.len() == usize::MAX,
            forall|i: int| 0 <= i < reports@.len() - 1 ==> !(#[trigger] reports@[i]).overflowed,
            forall|i: int| 0 <= i < reports@.len() ==> !((#[trigger] reports@[i]).polled is Idle),
            retired_by(old(self).tasks(), final(self).tasks(), reports@),
    {
        let mut reports: Vec<PollReport> = Vec::new();
        let ghost mut states: Seq<Executor> = seq![*self];
        loop
            invariant
                self.wf(),
                leads_through(states, *old(self), *self, reports@),
                forall|i: int| 0 <= i < reports@.len() ==> !(#[trigger] reports@[i]).overflowed,
                forall|i: int|
                    0 <= i < reports@.len() ==> !((#[trigger] reports@[i]).polled is Idle),
                retired_by(old(self).tasks(), self.tasks(), reports@),
            decreases usize::MAX - reports@.len(),
        {
            if self.spawner.ready_count() == 0 || reports.len() == usize::MAX {
                return reports;
            }
            let ghost before = *self;
            let ghost earlier = reports@;
            let report = self.poll_ready_task();
            let overflowed = report.overflowed;
            proof {
                let later = earlier.push(report);
                assert forall|k: u64|
                    self.tasks().contains_key(k) <==> (old(self).tasks().contains_key(k)
                        && !completed_in(later, k)) by {
                    lemma_completed_in_push(earlier, report, k);
                }
                assert(retired_by(old(self).tasks(), self.tasks(), later));
                lemma_chain_goes_on(states, *old(self), before, *self, earlier, report);
                states = states.push(*self);
            }
            reports.push(report);
            if overflowed {
                return reports;
            }
        }
    }

    /// Takes scheduling steps until no task is left, until nothing is ready,
    /// until a wake overflows the ready queue, or until `budget` steps were
    /// taken, whichever comes first. Returns how the run ended, and the
    /// report of every step in order.
    pub fn run(&mut self, budget: usize) -> (run: (RunState, Vec<PollReport>))
        requires
            old(self).wf(),
        ensures
            final(self).wf(),
            steps_taken(*old(self), *final(self), run.1@),
            run.1@.len() <= budget,
            forall|i: int| 0 <= i < run.1@.len() - 1 ==> !(#[trigger] run.1@[i]).overflowed,
            run.0 == if run.1@.len() > 0 && run.1@.last().overflowed {
                RunState::Overflowed
            } else if final(self).tasks().len() == 0 {
                RunState::Finished
            } else if final(self).ready().len() == 0 {
                RunState::Idle
            } else {
                RunState::Busy
            },
            run.0 == RunState::Busy ==> run.1@.len() == budget,
    {
        let mut reports: Vec<PollReport> = Vec::new();
        let ghost mut states: Seq<Executor> = seq![*self];
        loop
            invariant
                self.wf(),
                reports@.len() <= budget,
                leads_through(states, *old(self), *self, reports@),
                forall|i: int| 0 <= i < reports@.len() ==> !(#[trigger] reports@[i]).overflowed,
            decreases budget - reports@.len(),
        {
            if self.is_finished() {
                return (RunState::Finished, reports);
            }
            if self.spawner.ready_count() == 0 {
                return (RunState::Idle, reports);
            }
            if reports.len() == budget {
                return (RunState::Busy, reports);
            }
            let ghost before = *self;
            let ghost earlier = reports@;
            let report = self.poll_ready_task();
            let overflowed = report.overflowed;
            reports.push(report);
            proof {
                lemma_chain_goes_on(states, *old(self), before, *self, earlier, report);
                states = states.push(*self);
            }
            if overflowed {
                return (RunState::Overflowed, reports);
            }
        }
    }

    /// Spawns the tasks that running tasks have created, in the order of
    /// their creation, until one of them cannot be spawned: that one and
    /// those after it are dropped. Returns the identifiers of the tasks that
    /// were spawned, and why the next one was not, if one was not.
    pub fn adopt(&mut self, children: Vec<Task>) -> (adopted: (Vec<TaskId>, Option<SpawnError>))
        requires
            old(self).wf(),
        ensures
            final(self).wf(),
            final(self).cached() == old(self).cached(),
            ({
                let count = spawnable(old(self).tasks(), old(self).ready().len(), children@);
                let spawned = children@.take(count as int);
                &&& grown_by(old(self).tasks(), final(self).tasks(), id_numbers(adopted.0@))
                &&& adopted.0@ == ids_of(spawned)
                &&& final(self).tasks() == tasks_with(old(self).tasks(), spawned)
                &&& final(self).ready() == old(self).ready() + id_numbers(ids_of(spawned))
                &&& adopted.1 == if count == children@.len() {
                    None
                } else if final(self).tasks().contains_key(children@[count as int].id()@) {
                    Some(SpawnError::DuplicateTaskId)
                } else {
                    Some(SpawnError::QueueFull)
                }
            }),
    {
        let ghost all = children@;
        let mut rest = children;
        let ghost count = spawnable(self.tasks(), self.ready().len(), all);
        let mut adopted: Vec<TaskId> = Vec::new();
        proof {
            assert(all.take(0) =~= Seq::<Task>::empty());
            assert(all.skip(0) =~= all);
            assert(self.ready() =~= old(self).ready() + id_numbers(ids_of(all.take(0))));
            assert(ids_of(all.take(0)) =~= Seq::<TaskId>::empty());
        }
        while rest.len() > 0
            invariant
                self.wf(),
                self.cached() == old(self).cached(),
                count == spawnable(old(self).tasks(), old(self).ready().len(), all),
                adopted@.len() <= all.len(),
                rest@ == all.skip(adopted@.len() as int),
                all == children@,
                count == adopted@.len() + spawnable(self.tasks(), self.ready().len(), rest@),
                grown_by(old(self).tasks(), self.tasks(), id_numbers(adopted@)),
                adopted@ == ids_of(all.take(adopted@.len() as int)),
                self.tasks() == tasks_with(old(self).tasks(), all.take(adopted@.len() as int)),
                self.ready() == old(self).ready() + id_numbers(
                    ids_of(all.take(adopted@.len() as int)),
                ),
            decreases rest@.len(),
        {
            let ghost done = adopted@.len() as int;
            let ghost left = rest@;
            let child = rest.remove(0);
            let id = child.task_id();
            proof {
                assert(child == left[0]);
                assert(rest@ =~= left.skip(1));
                assert(left.skip(1) =~= all.skip(done + 1));
                assert(all.take(done + 1).drop_last() =~= all.take(done));
                assert(all.take(done + 1).last() == child);
                assert(ids_of(all.take(done + 1)) =~= ids_of(all.take(done)).push(id));
                assert(id_numbers(ids_of(all.take(done + 1))) =~= id_numbers(
                    ids_of(all.take(done)),
                ).push(id@));
            }
            let ghost before = self.tasks();
            let ghost known = id_numbers(adopted@);
            match self.spawner.try_spawn(child) {
                Ok(()) => {
                    adopted.push(id);
                    proof {
                        let ids = id_numbers(adopted@);
                        assert(ids =~= known.push(id@));
                        assert forall|i: int| 0 <= i < ids.len() implies self.tasks().contains_key(
                            #[trigger] ids[i],
                        ) by {
                            if i < known.len() {
                                assert(ids[i] == known[i]);
                            }
                        }
                        assert forall|k: u64| #[trigger]
                            self.tasks().contains_key(k) implies old(self).tasks().contains_key(k)
                            || ids.contains(k) by {
                            if k == id@ {
                                assert(ids[known.len() as int] == k);
                            } else if !old(self).tasks().contains_key(k) {
                                assert(before.contains_key(k));
                                let i = choose|i: int| 0 <= i < known.len() && known[i] == k;
                                assert(ids[i] == k);
                            }
                        }
                        assert(self.ready() =~= old(self).ready() + id_numbers(
                            ids_of(all.take(done + 1)),
                        ));
                    }
                },
                Err(error) => {
                    proof {
                        assert(count == done);
                        assert(all[done] == child);
                    }
                    return (adopted, Some(error));
                },
            }
        }
        proof {
            assert(all.take(all.len() as int) =~= all);
        }
        (adopted, None)
    }

    /// Takes a polled task back. A finished task is retired: it is dropped
    /// and its wake handle leaves the cache. A suspended task returns to the
    /// table. Then the wakes recorded during the poll join the ready queue in
    /// order, as far as the queue has room.
    pub fn settle(&mut self, task: Task, state: PollState, woken: &Vec<TaskId>) -> (overflowed:
        bool)
        requires
            old(self).wf_while_polling(task.id()),
        ensures
            final(self).wf(),
            state == PollState::Ready ==> final(self).tasks() == old(self).tasks(),
            state == PollState::Ready ==> final(self).cached() == old(self).cached().remove(
                task.id()@,
            ),
            state == PollState::Pending ==> final(self).tasks() == old(self).tasks().insert(
                task.id()@,
                task,
            ),
            state == PollState::Pending ==> final(self).cached() == old(self).cached(),
            final(self).ready() == delivered(old(self).ready(), woken@),
            overflowed == (old(self).ready().len() + woken@.len() > MAX_AMOUNT_OF_QUEUED_TASKS),
    {
        broadcast use vstd::std_specs::btree::group_btree_axioms;

        let key = task.task_id().as_u64();
        match state {
            PollState::Ready => {
                let _ = self.waker_cache.remove(&key);
            },
            PollState::Pending => {
                let _ = self.spawner.tasks.insert(key, task);
            },
        }
        let mut i: usize = 0;
        let mut overflowed = false;
        while i < woken.len() && !overflowed
            invariant
                i <= woken.len(),
                self.wf(),
                self.tasks() == if state == PollState::Pending {
                    old(self).tasks().insert(task.id()@, task)
                } else {
                    old(self).tasks()
                },
                self.cached() == if state == PollState::Ready {
                    old(self).cached().remove(task.id()@)
                } else {
                    old(self).cached()
                },
                old(self).ready().len() <= MAX_AMOUNT_OF_QUEUED_TASKS,
                !overflowed ==> self.ready() == old(self).ready() + id_numbers(woken@).take(
                    i as int,
                ),
                overflowed ==> self.ready() == delivered(old(self).ready(), woken@),
                overflowed ==> old(self).ready().len() + woken@.len()
                    > MAX_AMOUNT_OF_QUEUED_TASKS,
            decreases woken.len() - i, if overflowed { 0int } else { 1int },
        {
            let id = woken[i];
            match push_id(&mut self.spawner.task_queue, id.as_u64()) {
                Ok(()) => {
                    proof {
                        let numbers = id_numbers(woken@);
                        assert(numbers.take(i as int + 1) == numbers.take(i as int).push(
                            numbers[i as int],
                        ));
                        assert(self.ready() == old(self).ready() + numbers.take(i as int + 1));
                    }
                    i = i + 1;
                },
                Err(_) => {
                    overflowed = true;
                },
            }
        }
        proof {
            if !overflowed {
                assert(id_numbers(woken@).take(woken@.len() as int) == id_numbers(woken@));
            }
        }
        overflowed
    }
}

/// Whether `states` are the schedulers that the steps of `reports` lead
/// through, one after the other, from `first` to `last`.
pub open spec fn leads_through(
    states: Seq<Executor>,
    first: Executor,
    last: Executor,
    reports: Seq<PollReport>,
) -> bool {
    &&& states.len() == reports.len() + 1
    &&& states[0] == first
    &&& states.last() == last
    &&& forall|i: int|
        0 <= i < reports.len() ==> states[i].step_taken(states[i + 1], #[trigger] reports[i])
}

/// A chain of steps goes on with one more step.
proof fn lemma_chain_goes_on(
    states: Seq<Executor>,
    first: Executor,
    before: Executor,
    after: Executor,
    reports: Seq<PollReport>,
    report: PollReport,
)
    requires
        leads_through(states, first, before, reports),
        before.step_taken(after, report),
    ensures
        leads_through(states.push(after), first, after, reports.push(report)),
{
    let longer = states.push(after);
    let later = reports.push(report);
    assert forall|i: int| 0 <= i < later.len() implies longer[i].step_taken(
        longer[i + 1],
        #[trigger] later[i],
    ) by {
        if i < reports.len() {
            assert(later[i] == reports[i]);
            assert(states[i].step_taken(states[i + 1], reports[i]));
        }
    }
}

/// Whether the steps that `reports` give account of, taken one after the
/// other, lead from the scheduler `first` to the scheduler `last`.
pub open spec fn steps_taken(first: Executor, last: Executor, reports: Seq<PollReport>) -> bool {
    exists|states: Seq<Executor>| #[trigger] leads_through(states, first, last, reports)
}

/// No two live tasks share an identifier: tasks filed under different numbers
/// carry different identifiers.
pub proof fn lemma_live_tasks_are_distinct(spawner: Spawner, a: u64, b: u64)
    requires
        spawner.wf(),
        spawner.tasks().contains_key(a),
        spawner.tasks().contains_key(b),
        a != b,
    ensures
        spawner.tasks()[a].id() != spawner.tasks()[b].id(),
{
}

/// Identifiers from one counter never collide: if every live task has an
/// identifier that the counter has issued, a task with the identifier that
/// the counter issues next is not among them, and with it spawned the same
/// holds of the counter one further.
pub proof fn lemma_fresh_identifier_is_unused(tasks: Map<u64, Task>, issued: nat, task: Task)
    requires
        forall|k: u64| #[trigger] tasks.contains_key(k) ==> k < issued,
        task.id()@ == issued,
    ensures
        !tasks.contains_key(task.id()@),
        forall|k: u64| #[trigger] tasks.insert(task.id()@, task).contains_key(k) ==> k < issued + 1,
{
}

/// However many tasks are created, no two of them share an identifier, and
/// spawning them never finds an identifier in use: of tasks that one counter
/// has created one after the other, into a table of tasks that the same
/// counter created before them, as many are spawned as the ready queue has
/// room for.
pub proof fn lemma_creations_never_collide(
    tasks: Map<u64, Task>,
    ready_len: nat,
    issued: nat,
    children: Seq<Task>,
)
    requires
        forall|k: u64| #[trigger] tasks.contains_key(k) ==> k < issued,
        forall|i: int| 0 <= i < children.len() ==> (#[trigger] children[i]).id()@ == issued + i,
        ready_len <= MAX_AMOUNT_OF_QUEUED_TASKS,
    ensures
        forall|i: int, j: int|
            0 <= i < j < children.len() ==> (#[trigger] children[i]).id() != (
            #[trigger] children[j]).id(),
        forall|i: int|
            0 <= i < children.len() ==> !tasks.contains_key((#[trigger] children[i]).id()@),
        spawnable(tasks, ready_len, children) == if ready_len + children.len()
            <= MAX_AMOUNT_OF_QUEUED_TASKS {
            children.len()
        } else {
            (MAX_AMOUNT_OF_QUEUED_TASKS - ready_len) as nat
        },
    decreases children.len(),
{
    if children.len() > 0 && ready_len < MAX_AMOUNT_OF_QUEUED_TASKS {
        let first = children[0];
        let rest = children.skip(1);
        assert forall|i: int| 0 <= i < rest.len() implies (#[trigger] rest[i]).id()@ == issued + 1
            + i by {
            assert(rest[i] == children[i + 1]);
        }
        lemma_creations_never_collide(
            tasks.insert(first.id()@, first),
            ready_len + 1,
            issued + 1,
            rest,
        );
    }
}

/// A wake is never dropped in silence. If a step does not report an
/// overflow, every wake of its poll is in the ready queue, in order, behind
/// what waited there. If it does, the ready queue is full, what waited there
/// still waits, oldest first, and nothing was overwritten.
pub proof fn lemma_overflow_is_never_silent(before: Executor, after: Executor, report: PollReport)
    requires
        before.wf(),
        before.ready().len() > 0,
        before.step_taken(after, report),
    ensures
        !report.overflowed ==> after.ready() == before.ready().skip(1) + id_numbers(
            report.woken@,
        ),
        report.overflowed ==> after.ready().len() == MAX_AMOUNT_OF_QUEUED_TASKS,
        after.ready().take(before.ready().len() - 1) == before.ready().skip(1),
        report.overflowed <==> before.ready().len() - 1 + report.woken@.len()
            > MAX_AMOUNT_OF_QUEUED_TASKS,
{
    let rest = before.ready().skip(1);
    if before.tasks().contains_key(before.ready()[0]) {
        let woken = id_numbers(report.woken@);
        let fit = wakes_that_fit(rest.len(), report.woken@.len());
        assert(after.ready() == rest + woken.take(fit as int));
        assert(after.ready().take(rest.len() as int) =~= rest);
        if !report.overflowed {
            assert(woken.take(fit as int) =~= woken);
        }
    } else {
        assert(after.ready().take(rest.len() as int) =~= rest);
        assert(rest + id_numbers(report.woken@) =~= rest);
    }
}

/// A step that reports a task as completed removes it from the task table
/// and from the wake handle cache at once; the task was live before.
pub proof fn lemma_completion_retires(
    before: Executor,
    after: Executor,
    report: PollReport,
    id: TaskId,
)
    requires
        before.wf(),
        before.step_taken(after, report),
        report.polled == Polled::Completed(id),
    ensures
        before.tasks().contains_key(id@),
        !after.tasks().contains_key(id@),
        !after.cached().contains_key(id@),
{
}

/// A task that is not live is never polled and never completes again: a step
/// leaves it out of the table and out of the cache, and reports at most that
/// a notification for it was stale.
pub proof fn lemma_retired_stays_retired(
    before: Executor,
    after: Executor,
    report: PollReport,
    id: TaskId,
)
    requires
        before.wf(),
        before.step_taken(after, report),
        !before.tasks().contains_key(id@),
    ensures
        report.polled != Polled::Completed(id),
        report.polled != Polled::Pending(id),
        !after.tasks().contains_key(id@),
        !after.cached().contains_key(id@),
{
}

/// Waking a task twice before it is polled is harmless. With the two
/// notifications at the front of the ready queue, the first step polls the
/// task. If the task completes there, the second step finds a stale
/// notification, discards it and touches neither table nor cache.
pub proof fn lemma_duplicate_wake_is_idempotent(
    start: Executor,
    between: Executor,
    end: Executor,
    first: PollReport,
    second: PollReport,
    id: TaskId,
)
    requires
        start.wf(),
        start.tasks().contains_key(id@),
        start.ready().len() >= 2,
        start.ready()[0] == id@,
        start.ready()[1] == id@,
        start.step_taken(between, first),
        between.step_taken(end, second),
    ensures
        first.polled == Polled::Pending(id) || first.polled == Polled::Completed(id),
        first.polled == Polled::Completed(id) ==> second.polled == Polled::Stale(id),
        first.polled == Polled::Completed(id) ==> end.tasks() == between.tasks(),
        first.polled == Polled::Completed(id) ==> end.cached() == between.cached(),
        first.polled == Polled::Pending(id) ==> second.polled == Polled::Pending(id)
            || second.polled == Polled::Completed(id),
{
    assert(polled_number(first.polled) == Some(id@));
    match first.polled {
        Polled::Pending(found) => {
            TaskId::lemma_view_injective(found, id);
        },
        Polled::Completed(found) => {
            TaskId::lemma_view_injective(found, id);
        },
        _ => {},
    }
    let rest = start.ready().skip(1);
    assert(rest[0] == id@);
    assert(between.ready() == delivered(rest, first.woken@));
    assert(between.ready()[0] == id@);
    match second.polled {
        Polled::Stale(found) => {
            TaskId::lemma_view_injective(found, id);
        },
        Polled::Pending(found) => {
            TaskId::lemma_view_injective(found, id);
        },
        Polled::Completed(found) => {
            TaskId::lemma_view_injective(found, id);
        },
        _ => {},
    }
}

/// Without live tasks nothing is polled: steps taken from a scheduler whose
/// table and cache are empty only discard stale notifications, and leave
/// table and cache empty.
pub proof fn lemma_steps_without_tasks_poll_nothing(
    states: Seq<Executor>,
    first: Executor,
    last: Executor,
    reports: Seq<PollReport>,
)
    requires
        leads_through(states, first, last, reports),
        first.tasks() == Map::<u64, Task>::empty(),
        first.cached() == Map::<u64, TaskWaker>::empty(),
    ensures
        last.tasks() == Map::<u64, Task>::empty(),
        last.cached() == Map::<u64, TaskWaker>::empty(),
        forall|i: int|
            0 <= i < reports.len() ==> (#[trigger] reports[i]).polled is Stale
                || reports[i].polled is Idle,
    decreases reports.len(),
{
    if reports.len() > 0 {
        let shorter = states.drop_last();
        let earlier = reports.drop_last();
        let before = states[reports.len() - 1];
        assert forall|i: int| 0 <= i < earlier.len() implies shorter[i].step_taken(
            shorter[i + 1],
            #[trigger] earlier[i],
        ) by {
            assert(earlier[i] == reports[i]);
            assert(states[i].step_taken(states[i + 1], reports[i]));
        }
        assert(leads_through(shorter, first, before, earlier));
        lemma_steps_without_tasks_poll_nothing(shorter, first, before, earlier);
        assert(before.step_taken(states[reports.len() as int], reports[reports.len() - 1]));
        assert forall|i: int| 0 <= i < reports.len() implies (#[trigger] reports[i]).polled is Stale
            || reports[i].polled is Idle by {
            if i < earlier.len() {
                assert(reports[i] == earlier[i]);
            }
        }
    }
}

/// Draining after a duplicate wake leaves nothing behind. Of one live task
/// that was woken twice before it is polled and that completes at its first
/// poll, a drain of the ready queue polls the task exactly once: its first
/// step completes the task, every further step discards a stale
/// notification, the second of them the duplicate, and at the end the task
/// table, the cache of wake handles and the ready queue are all empty,
/// whatever the completing poll has woken.
pub proof fn lemma_duplicate_wake_is_drained(
    states: Seq<Executor>,
    start: Executor,
    end: Executor,
    reports: Seq<PollReport>,
    id: TaskId,
)
    requires
        start.wf(),
        start.tasks().dom() == set![id@],
        start.ready() == seq![id@, id@],
        leads_through(states, start, end, reports),
        reports.len() > 0,
        reports[0].polled is Completed,
        forall|i: int| 0 <= i < reports.len() ==> !((#[trigger] reports[i]).polled is Idle),
        end.ready().len() == 0,
    ensures
        reports[0].polled == Polled::Completed(id),
        reports.len() >= 2,
        reports[1].polled == Polled::Stale(id),
        forall|i: int| 1 <= i < reports.len() ==> (#[trigger] reports[i]).polled is Stale,
        end.tasks() == Map::<u64, Task>::empty(),
        end.cached() == Map::<u64, TaskWaker>::empty(),
        end.ready() == Seq::<u64>::empty(),
{
    let second = states[1];
    assert(start.step_taken(second, reports[0]));
    assert(start.ready()[0] == id@);
    assert(start.tasks().contains_key(id@));
    match reports[0].polled {
        Polled::Completed(found) => {
            TaskId::lemma_view_injective(found, id);
        },
        _ => {},
    }
    assert(second.tasks() =~= Map::<u64, Task>::empty());
    assert(second.cached() =~= Map::<u64, TaskWaker>::empty());
    let rest = start.ready().skip(1);
    assert(rest[0] == id@);
    assert(second.ready() == delivered(rest, reports[0].woken@));
    assert(second.ready()[0] == id@);
    assert(second.ready().len() > 0);
    let later_states = states.skip(1);
    let later = reports.skip(1);
    assert forall|i: int| 0 <= i < later.len() implies later_states[i].step_taken(
        later_states[i + 1],
        #[trigger] later[i],
    ) by {
        assert(later[i] == reports[i + 1]);
        assert(states[i + 1].step_taken(states[i + 2], reports[i + 1]));
    }
    assert(leads_through(later_states, second, end, later));
    lemma_steps_without_tasks_poll_nothing(later_states, second, end, later);
    assert(second.step_taken(states[2], reports[1]));
    match reports[1].polled {
        Polled::Stale(found) => {
            TaskId::lemma_view_injective(found, id);
        },
        _ => {},
    }
    assert forall|i: int| 1 <= i < reports.len() implies (#[trigger] reports[i]).polled is Stale by {
        assert(reports[i] == later[i - 1]);
    }
    assert(end.ready() =~= Seq::<u64>::empty());
}

/// A wake that arrives after the ready queue was seen empty and before the
/// core halts is not lost: the decision taken afterwards is to go on, and
/// the next step polls the woken task.
pub proof fn lemma_wake_before_halt_is_seen(
    observed: Executor,
    woken: Executor,
    next: Executor,
    report: PollReport,
    id: TaskId,
)
    requires
        observed.wf(),
        observed.ready().len() == 0,
        observed.tasks().contains_key(id@),
        woken.tasks() == observed.tasks(),
        woken.ready() == observed.ready().push(id@),
        woken.step_taken(next, report),
    ensures
        observed.idle_decision() == IdleAction::Halt,
        woken.idle_decision() == IdleAction::Resume,
        report.polled == Polled::Pending(id) || report.polled == Polled::Completed(id),
{
    assert(woken.ready()[0] == id@);
    match report.polled {
        Polled::Pending(found) => {
            TaskId::lemma_view_injective(found, id);
        },
        Polled::Completed(found) => {
            TaskId::lemma_view_injective(found, id);
        },
        _ => {},
    }
}

} // verus!
