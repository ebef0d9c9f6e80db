//! Tasks, their identifiers and wake handles, and what a computation sees
//! of the scheduler while it is polled.

use vstd::prelude::*;

pub mod executor;
pub mod keyboard;
pub mod queue;
pub mod simple_executor;
pub mod timer;

verus! {

/// Identifies one task for as long as the process lives.
///
/// Identifiers come out of a [`TaskIdCounter`] only, in increasing order, so
/// one counter never hands out the same identifier twice.
#[derive(Clone, Copy, Debug, PartialEq, Eq, Structural, PartialOrd, Ord, Hash)]
pub struct TaskId(u64);

impl View for TaskId {
    type V = u64;

    closed spec fn view(&self) -> u64 {
        self.0
    }
}

impl TaskId {
    /// The number behind the identifier.
    pub fn as_u64(&self) -> (number: u64)
        ensures
            number == self@,
    {
        self.0
    }

    pub(crate) fn from_u64(number: u64) -> (id: TaskId)
        ensures
            id@ == number,
    {
        TaskId(number)
    }

    /// Two identifiers with the same number are the same identifier.
    pub proof fn lemma_view_injective(a: TaskId, b: TaskId)
        requires
            a@ == b@,
        ensures
            a == b,
    {
    }
}

/// The source of task identifiers: a counter that only moves forward.
pub struct TaskIdCounter {
    next: u64,
}

impl TaskIdCounter {
    /// How many identifiers have been issued; they are the numbers below it.
    pub closed spec fn issued(&self) -> nat {
        self.next as nat
    }

    pub fn new() -> (counter: TaskIdCounter)
        ensures
            counter.issued() == 0,
    {
        TaskIdCounter { next: 0 }
    }

    /// Whether the counter has run through all 64-bit numbers.
    pub fn is_exhausted(&self) -> (exhausted: bool)
        ensures
            exhausted == (self.issued() >= u64::MAX),
    {
        self.next == u64::MAX
    }

    /// Issues the next identifier. It is larger than every identifier issued
    /// before and smaller than every one issued afterwards.
    pub fn next_id(&mut self) -> (id: TaskId)
        requires
            old(self).issued() < u64::MAX,
        ensures
            id@ == old(self).issued(),
            final(self).issued() == old(self).issued() + 1,
    {
        let id = TaskId(self.next);
        self.next = self.next + 1;
        id
    }
}

/// What one poll of a computation reports.
#[derive(Clone, Copy, Debug, PartialEq, Eq, Structural)]
pub enum PollState {
    /// The computation has finished and must not be polled again.
    Ready,
    /// The computation has suspended and waits for its wake handle.
    Pending,
}

/// What one poll of an item source reports.
#[derive(Debug, PartialEq, Eq, Structural)]
pub enum Poll<T> {
    Ready(T),
    Pending,
}

/// The wake handle of one task: invoking it makes that task eligible for
/// polling again. It is a plain value, free to copy, and stays harmless after
/// its task has finished.
#[derive(Clone, Copy, Debug, PartialEq, Eq, Structural)]
pub struct TaskWaker {
    task_id: TaskId,
}

impl TaskWaker {
    /// The task this handle wakes.
    pub closed spec fn id(&self) -> TaskId {
        self.task_id
    }

    pub fn new(task_id: TaskId) -> (waker: TaskWaker)
        ensures
            waker.id() == task_id,
    {
        TaskWaker { task_id }
    }

    pub fn task_id(&self) -> (task_id: TaskId)
        ensures
            task_id == self.id(),
    {
        self.task_id
    }
}

/// What a computation is handed while it is polled: its own wake handle, and
/// a record of the wake handles it invokes during the poll. The executor
/// delivers the recorded wakes to the ready queue, in order, when the poll
/// returns.
pub struct Context {
    waker: TaskWaker,
    woken: Vec<TaskId>,
}

impl Context {
    /// The wake handle of the task being polled.
    pub closed spec fn own_waker(&self) -> TaskWaker {
        self.waker
    }

    /// The tasks woken during this poll so far, in the order of the wakes.
    pub closed spec fn woken(&self) -> Seq<TaskId> {
        self.woken@
    }

    pub fn from_waker(waker: TaskWaker) -> (context: Context)
        ensures
            context.own_waker() == waker,
            context.woken() == Seq::<TaskId>::empty(),
    {
        Context { waker, woken: Vec::new() }
    }

    pub fn waker(&self) -> (waker: TaskWaker)
        ensures
            waker == self.own_waker(),
    {
        self.waker
    }

    /// Invokes a wake handle: its task joins the record of woken tasks.
    pub fn wake(&mut self, waker: &TaskWaker)
        ensures
            final(self).own_waker() == old(self).own_waker(),
            final(self).woken() == old(self).woken().push(waker.id()),
    {
        self.woken.push(waker.task_id);
    }

    /// Invokes the wake handle of the task being polled.
    pub fn wake_by_ref(&mut self)
        ensures
            final(self).own_waker() == old(self).own_waker(),
            final(self).woken() == old(self).woken().push(old(self).own_waker().id()),
    {
        let id = self.waker.task_id;
        self.woken.push(id);
    }

    /// Ends the poll and hands out the record of woken tasks.
    pub fn into_woken(self) -> (woken: Vec<TaskId>)
        ensures
            woken@ == self.woken(),
    {
        self.woken
    }
}

/// A resumable computation that produces no value: each poll advances it to
/// its next suspension point or to its end. Nothing is promised about what a
/// poll reports; the executor is verified for every report.
pub trait Computation {
    fn poll_once(&mut self, context: &mut Context) -> PollState;
}

/// One computation together with the identifier it runs under.
pub struct Task {
    id: TaskId,
    computation: Box<dyn Computation>,
    polls: Ghost<nat>,
}

impl Task {
    /// The identifier of the task; it never changes.
    pub closed spec fn id(&self) -> TaskId {
        self.id
    }

    /// How many times the computation has been polled.
    pub closed spec fn polls(&self) -> nat {
        self.polls@
    }

    /// Wraps a computation into a task with a freshly issued identifier. The
    /// computation has not been polled yet.
    pub fn new(ids: &mut TaskIdCounter, computation: Box<dyn Computation>) -> (task: Task)
        requires
            old(ids).issued() < u64::MAX,
        ensures
            task.id()@ == old(ids).issued(),
            task.polls() == 0,
            final(ids).issued() == old(ids).issued() + 1,
    {
        let id = ids.next_id();
        Task { id, computation, polls: Ghost(0) }
    }

    pub fn task_id(&self) -> (id: TaskId)
        ensures
            id == self.id(),
    {
        self.id
    }

    /// Polls the computation once. The context must carry the task's own
    /// wake handle: computations register that handle with the sources of
    /// their events, and the handle of another task would wake the wrong
    /// one. Whatever the computation reports, the task keeps its identifier
    /// and has been polled once more.
    pub fn poll(&mut self, context: &mut Context) -> (state: PollState)
        requires
            old(context).own_waker().id() == old(self).id(),
        ensures
            final(self).id() == old(self).id(),
            final(self).polls() == old(self).polls() + 1,
    {
        let state = self.computation.poll_once(context);
        self.polls = Ghost(self.polls@ + 1);
        state
    }
}

} // verus!
