use cbos::task::executor::{
    Executor, IdleAction, Polled, RunState, SpawnError, Spawner, MAX_AMOUNT_OF_QUEUED_TASKS,
};
use cbos::task::{Computation, Context, PollState, Task, TaskId, TaskIdCounter, TaskWaker};
use std::cell::Cell;
use std::rc::Rc;

/// Finishes at its first poll and counts its polls.
struct Once {
    polls: Rc<Cell<u32>>,
}

impl Computation for Once {
    fn poll_once(&mut self, _context: &mut Context) -> PollState {
        self.polls.set(self.polls.get() + 1);
        PollState::Ready
    }
}

/// Suspends `pending` times, then finishes. Wakes nobody.
struct Countdown {
    pending: u32,
    polls: Rc<Cell<u32>>,
}

impl Computation for Countdown {
    fn poll_once(&mut self, _context: &mut Context) -> PollState {
        self.polls.set(self.polls.get() + 1);
        if self.pending == 0 {
            PollState::Ready
        } else {
            self.pending -= 1;
            PollState::Pending
        }
    }
}

/// Never finishes and wakes itself `wakes` times at every poll.
struct Rewake {
    wakes: u32,
}

impl Computation for Rewake {
    fn poll_once(&mut self, context: &mut Context) -> PollState {
        for _ in 0..self.wakes {
            context.wake_by_ref();
        }
        PollState::Pending
    }
}

/// Suspends once and wakes another task on the way.
struct WakeOther {
    other: TaskWaker,
    done: bool,
}

impl Computation for WakeOther {
    fn poll_once(&mut self, context: &mut Context) -> PollState {
        if self.done {
            PollState::Ready
        } else {
            self.done = true;
            context.wake(&self.other);
            PollState::Pending
        }
    }
}

fn counter() -> Rc<Cell<u32>> {
    Rc::new(Cell::new(0))
}

#[test]
fn task_ids_are_issued_in_increasing_order() {
    let mut ids = TaskIdCounter::new();
    let a = ids.next_id();
    let b = ids.next_id();
    let c = ids.next_id();
    assert_eq!(a.as_u64(), 0);
    assert_eq!(b.as_u64(), 1);
    assert_eq!(c.as_u64(), 2);
    assert_ne!(a, b);
    assert_ne!(b, c);
    assert!(!ids.is_exhausted());
}

#[test]
fn tasks_of_one_counter_have_distinct_ids() {
    let mut ids = TaskIdCounter::new();
    let mut seen: Vec<TaskId> = Vec::new();
    for _ in 0..200 {
        let task = Task::new(&mut ids, Box::new(Once { polls: counter() }));
        assert!(!seen.contains(&task.task_id()));
        seen.push(task.task_id());
    }
}

#[test]
fn new_executor_is_finished_and_idle() {
    let mut executor = Executor::new();
    assert!(executor.is_finished());
    assert_eq!(executor.sleep_if_idle(), IdleAction::Halt);
    assert_eq!(executor.run(10).0, RunState::Finished);
    let report = executor.poll_ready_task();
    assert_eq!(report.polled, Polled::Idle);
    assert!(report.woken.is_empty());
    assert!(!report.overflowed);
}

#[test]
fn spawn_files_the_task_and_queues_it() {
    let mut ids = TaskIdCounter::new();
    let mut spawner = Spawner::new();
    let task = Task::new(&mut ids, Box::new(Once { polls: counter() }));
    let id = task.task_id();
    assert!(!spawner.contains(id));
    spawner.spawn(task);
    assert!(spawner.contains(id));
    assert_eq!(spawner.task_count(), 1);
    assert_eq!(spawner.ready_count(), 1);
}

#[test]
fn try_spawn_refuses_a_duplicate_id() {
    let mut ids = TaskIdCounter::new();
    let mut other_ids = TaskIdCounter::new();
    let mut executor = Executor::new();
    let first = Task::new(&mut ids, Box::new(Once { polls: counter() }));
    let twin = Task::new(&mut other_ids, Box::new(Once { polls: counter() }));
    assert_eq!(first.task_id(), twin.task_id());
    assert_eq!(executor.get_spawner().try_spawn(first), Ok(()));
    assert_eq!(executor.get_spawner().try_spawn(twin), Err(SpawnError::DuplicateTaskId));
    assert_eq!(executor.get_spawner().task_count(), 1);
    assert_eq!(executor.get_spawner().ready_count(), 1);
}

#[test]
fn a_task_is_completed_exactly_once() {
    let mut ids = TaskIdCounter::new();
    let mut executor = Executor::new();
    let polls = counter();
    let task = Task::new(&mut ids, Box::new(Once { polls: polls.clone() }));
    let id = task.task_id();
    executor.get_spawner().spawn(task);
    let report = executor.poll_ready_task();
    assert_eq!(report.polled, Polled::Completed(id));
    assert!(executor.is_finished());
    assert!(!executor.get_spawner().contains(id));
    // Late wakes find nothing to complete.
    let waker = TaskWaker::new(id);
    waker.wake_task(executor.get_spawner());
    let report = executor.poll_ready_task();
    assert_eq!(report.polled, Polled::Stale(id));
    assert_eq!(polls.get(), 1);
    assert_eq!(executor.poll_ready_task().polled, Polled::Idle);
}

#[test]
fn duplicate_wake_polls_once_and_skips_the_stale_entry() {
    let mut ids = TaskIdCounter::new();
    let mut executor = Executor::new();
    let polls = counter();
    let task = Task::new(&mut ids, Box::new(Countdown { pending: 1, polls: polls.clone() }));
    let id = task.task_id();
    executor.get_spawner().spawn(task);
    assert_eq!(executor.poll_ready_task().polled, Polled::Pending(id));
    assert_eq!(polls.get(), 1);
    assert_eq!(executor.sleep_if_idle(), IdleAction::Halt);
    // The wake handle is invoked twice in a row before the task is polled.
    let waker = TaskWaker::new(id);
    waker.wake_task(executor.get_spawner());
    waker.wake_task(executor.get_spawner());
    assert_eq!(executor.get_spawner().ready_count(), 2);
    assert_eq!(executor.poll_ready_task().polled, Polled::Completed(id));
    assert_eq!(polls.get(), 2);
    assert_eq!(executor.poll_ready_task().polled, Polled::Stale(id));
    assert_eq!(polls.get(), 2);
    assert!(executor.is_finished());
    assert_eq!(executor.get_spawner().ready_count(), 0);
}

#[test]
fn duplicate_wake_of_a_suspended_task_polls_it_twice() {
    let mut ids = TaskIdCounter::new();
    let mut executor = Executor::new();
    let polls = counter();
    let task = Task::new(&mut ids, Box::new(Countdown { pending: 5, polls: polls.clone() }));
    let id = task.task_id();
    executor.get_spawner().spawn(task);
    TaskWaker::new(id).wake_task(executor.get_spawner());
    assert_eq!(executor.poll_ready_task().polled, Polled::Pending(id));
    assert_eq!(executor.poll_ready_task().polled, Polled::Pending(id));
    assert_eq!(executor.poll_ready_task().polled, Polled::Idle);
    assert_eq!(polls.get(), 2);
}

#[test]
fn ready_queue_is_first_in_first_out() {
    let mut ids = TaskIdCounter::new();
    let mut executor = Executor::new();
    let mut expected = Vec::new();
    for _ in 0..5 {
        let task = Task::new(&mut ids, Box::new(Countdown { pending: 9, polls: counter() }));
        expected.push(task.task_id());
        executor.get_spawner().spawn(task);
    }
    let reports = executor.run_ready_task();
    assert_eq!(reports.len(), 5);
    for (report, id) in reports.iter().zip(expected.iter()) {
        assert_eq!(report.polled, Polled::Pending(*id));
        assert!(!report.overflowed);
    }
    assert_eq!(executor.get_spawner().ready_count(), 0);
    assert_eq!(executor.get_spawner().task_count(), 5);
}

#[test]
fn wakes_of_a_poll_are_delivered_in_order() {
    let mut ids = TaskIdCounter::new();
    let mut executor = Executor::new();
    let sleeper = Task::new(&mut ids, Box::new(Countdown { pending: 1, polls: counter() }));
    let sleeper_id = sleeper.task_id();
    let waker = Task::new(
        &mut ids,
        Box::new(WakeOther { other: TaskWaker::new(sleeper_id), done: false }),
    );
    let waker_id = waker.task_id();
    executor.get_spawner().spawn(sleeper);
    executor.get_spawner().spawn(waker);
    let reports = executor.run_ready_task();
    assert_eq!(reports.len(), 3);
    assert_eq!(reports[0].polled, Polled::Pending(sleeper_id));
    assert!(reports[0].woken.is_empty());
    assert_eq!(reports[1].polled, Polled::Pending(waker_id));
    assert_eq!(reports[1].woken, vec![sleeper_id]);
    // The wake recorded on the way is handled before the drain ends.
    assert_eq!(reports[2].polled, Polled::Completed(sleeper_id));
    assert_eq!(executor.get_spawner().ready_count(), 0);
    assert_eq!(executor.get_spawner().task_count(), 1);
    assert_eq!(executor.poll_ready_task().polled, Polled::Idle);
}

#[test]
fn run_stops_when_all_tasks_have_finished() {
    let mut ids = TaskIdCounter::new();
    let mut executor = Executor::new();
    for _ in 0..3 {
        let task = Task::new(&mut ids, Box::new(Once { polls: counter() }));
        executor.get_spawner().spawn(task);
    }
    assert_eq!(executor.run(100).0, RunState::Finished);
    assert!(executor.is_finished());
}

#[test]
fn run_reports_idle_when_tasks_wait_for_a_wake() {
    let mut ids = TaskIdCounter::new();
    let mut executor = Executor::new();
    let task = Task::new(&mut ids, Box::new(Countdown { pending: 1, polls: counter() }));
    let id = task.task_id();
    executor.get_spawner().spawn(task);
    assert_eq!(executor.run(100).0, RunState::Idle);
    assert_eq!(executor.sleep_if_idle(), IdleAction::Halt);
    TaskWaker::new(id).wake_task(executor.get_spawner());
    assert_eq!(executor.run(100).0, RunState::Finished);
}

#[test]
fn run_is_bounded_by_its_budget() {
    let mut ids = TaskIdCounter::new();
    let mut executor = Executor::new();
    let task = Task::new(&mut ids, Box::new(Rewake { wakes: 1 }));
    executor.get_spawner().spawn(task);
    assert_eq!(executor.run(0).0, RunState::Busy);
    assert_eq!(executor.run(1000).0, RunState::Busy);
    assert_eq!(executor.get_spawner().ready_count(), 1);
    assert_eq!(executor.get_spawner().task_count(), 1);
}

#[test]
fn ready_queue_overflow_on_spawn_is_reported() {
    let mut ids = TaskIdCounter::new();
    let mut executor = Executor::new();
    for _ in 0..MAX_AMOUNT_OF_QUEUED_TASKS {
        let task = Task::new(&mut ids, Box::new(Rewake { wakes: 1 }));
        assert_eq!(executor.get_spawner().try_spawn(task), Ok(()));
    }
    assert_eq!(executor.get_spawner().ready_count(), MAX_AMOUNT_OF_QUEUED_TASKS);
    let one_too_many = Task::new(&mut ids, Box::new(Rewake { wakes: 1 }));
    let id = one_too_many.task_id();
    assert_eq!(executor.get_spawner().try_spawn(one_too_many), Err(SpawnError::QueueFull));
    assert!(!executor.get_spawner().contains(id));
    assert_eq!(executor.get_spawner().task_count(), MAX_AMOUNT_OF_QUEUED_TASKS);
    // Each task takes one place and gives one back: the queue stays full
    // and never overflows.
    let (state, reports) = executor.run(3 * MAX_AMOUNT_OF_QUEUED_TASKS);
    assert_eq!(state, RunState::Busy);
    assert_eq!(reports.len(), 3 * MAX_AMOUNT_OF_QUEUED_TASKS);
    assert!(reports.iter().all(|report| !report.overflowed));
    assert_eq!(executor.get_spawner().ready_count(), MAX_AMOUNT_OF_QUEUED_TASKS);
}

#[test]
fn ready_queue_overflow_on_wake_is_fatal_not_silent() {
    let mut ids = TaskIdCounter::new();
    let mut executor = Executor::new();
    for _ in 0..MAX_AMOUNT_OF_QUEUED_TASKS {
        let task = Task::new(&mut ids, Box::new(Rewake { wakes: 2 }));
        executor.get_spawner().spawn(task);
    }
    // The first poll frees one place and asks for two.
    let report = executor.poll_ready_task();
    assert_eq!(report.polled, Polled::Pending(TaskId::clone(&report.woken[0])));
    assert_eq!(report.woken.len(), 2);
    assert!(report.overflowed);
    assert_eq!(executor.get_spawner().ready_count(), MAX_AMOUNT_OF_QUEUED_TASKS);
    assert_eq!(executor.run(10).0, RunState::Overflowed);
    let reports = executor.run_ready_task();
    assert_eq!(reports.len(), 1);
    assert!(reports[0].overflowed);
}

#[test]
fn try_wake_reports_a_full_queue() {
    let mut ids = TaskIdCounter::new();
    let mut spawner = Spawner::new();
    let task = Task::new(&mut ids, Box::new(Rewake { wakes: 0 }));
    let waker = TaskWaker::new(task.task_id());
    spawner.spawn(task);
    for _ in 1..MAX_AMOUNT_OF_QUEUED_TASKS {
        assert!(waker.try_wake_task(&mut spawner).is_ok());
    }
    assert_eq!(spawner.ready_count(), MAX_AMOUNT_OF_QUEUED_TASKS);
    assert!(waker.try_wake_task(&mut spawner).is_err());
    assert_eq!(spawner.ready_count(), MAX_AMOUNT_OF_QUEUED_TASKS);
}

#[test]
fn a_wake_between_the_empty_check_and_the_halt_is_not_lost() {
    let mut ids = TaskIdCounter::new();
    let mut executor = Executor::new();
    let polls = counter();
    let task = Task::new(&mut ids, Box::new(Countdown { pending: 1, polls: polls.clone() }));
    let id = task.task_id();
    executor.get_spawner().spawn(task);
    assert_eq!(executor.poll_ready_task().polled, Polled::Pending(id));
    // The ready queue is observed empty ...
    assert_eq!(executor.poll_ready_task().polled, Polled::Idle);
    // ... an interrupt wakes the task before the core halts ...
    TaskWaker::new(id).wake_task(executor.get_spawner());
    // ... so the decision under disabled interrupts is against halting,
    assert_eq!(executor.sleep_if_idle(), IdleAction::Resume);
    // and the next step polls the woken task.
    assert_eq!(executor.poll_ready_task().polled, Polled::Completed(id));
    assert_eq!(polls.get(), 2);
    assert_eq!(executor.sleep_if_idle(), IdleAction::Halt);
}

#[test]
fn settle_retires_a_finished_task_and_keeps_a_suspended_one() {
    let mut ids = TaskIdCounter::new();
    let mut executor = Executor::new();
    let kept = Task::new(&mut ids, Box::new(Once { polls: counter() }));
    let kept_id = kept.task_id();
    let dropped = Task::new(&mut ids, Box::new(Once { polls: counter() }));
    let dropped_id = dropped.task_id();
    assert!(!executor.settle(kept, PollState::Pending, &vec![dropped_id, kept_id]));
    assert!(executor.get_spawner().contains(kept_id));
    assert_eq!(executor.get_spawner().ready_count(), 2);
    assert!(!executor.settle(dropped, PollState::Ready, &Vec::new()));
    assert!(!executor.get_spawner().contains(dropped_id));
    assert_eq!(executor.poll_ready_task().polled, Polled::Stale(dropped_id));
    assert_eq!(executor.poll_ready_task().polled, Polled::Completed(kept_id));
}

#[test]
fn context_records_wakes_in_order() {
    let mut ids = TaskIdCounter::new();
    let own = TaskWaker::new(ids.next_id());
    let other = TaskWaker::new(ids.next_id());
    let mut context = Context::from_waker(own);
    assert_eq!(context.waker(), own);
    context.wake(&other);
    context.wake_by_ref();
    context.wake(&other);
    assert_eq!(context.into_woken(), vec![other.task_id(), own.task_id(), other.task_id()]);
}

#[test]
fn adopt_spawns_created_tasks_in_order() {
    let mut ids = TaskIdCounter::new();
    let mut executor = Executor::new();
    let children: Vec<Task> = (0..3)
        .map(|_| Task::new(&mut ids, Box::new(Once { polls: counter() })))
        .collect();
    let expected: Vec<TaskId> = children.iter().map(|task| task.task_id()).collect();
    let (adopted, failure) = executor.adopt(children);
    assert_eq!(adopted, expected);
    assert_eq!(failure, None);
    assert_eq!(executor.get_spawner().task_count(), 3);
    let reports = executor.run_ready_task();
    assert_eq!(reports.len(), 3);
    for (report, id) in reports.iter().zip(expected.iter()) {
        assert_eq!(report.polled, Polled::Completed(*id));
    }
    assert_eq!(executor.adopt(Vec::new()), (Vec::new(), None));
}

#[test]
fn adopt_stops_at_a_duplicate_id() {
    let mut ids = TaskIdCounter::new();
    let mut other_ids = TaskIdCounter::new();
    let mut executor = Executor::new();
    let first = Task::new(&mut ids, Box::new(Once { polls: counter() }));
    let second = Task::new(&mut ids, Box::new(Once { polls: counter() }));
    let twin = Task::new(&mut other_ids, Box::new(Once { polls: counter() }));
    let third = Task::new(&mut ids, Box::new(Once { polls: counter() }));
    let expected = vec![first.task_id(), second.task_id()];
    let (adopted, failure) = executor.adopt(vec![first, second, twin, third]);
    assert_eq!(adopted, expected);
    assert_eq!(failure, Some(SpawnError::DuplicateTaskId));
    assert_eq!(executor.get_spawner().task_count(), 2);
    assert_eq!(executor.get_spawner().ready_count(), 2);
}

#[test]
fn adopt_stops_at_a_full_ready_queue() {
    let mut ids = TaskIdCounter::new();
    let mut executor = Executor::new();
    let children: Vec<Task> = (0..MAX_AMOUNT_OF_QUEUED_TASKS + 2)
        .map(|_| Task::new(&mut ids, Box::new(Rewake { wakes: 1 })))
        .collect();
    let (adopted, failure) = executor.adopt(children);
    assert_eq!(adopted.len(), MAX_AMOUNT_OF_QUEUED_TASKS);
    assert_eq!(failure, Some(SpawnError::QueueFull));
    assert_eq!(executor.get_spawner().task_count(), MAX_AMOUNT_OF_QUEUED_TASKS);
}

#[test]
fn run_reports_every_step_it_takes() {
    let mut ids = TaskIdCounter::new();
    let mut executor = Executor::new();
    let first = Task::new(&mut ids, Box::new(Countdown { pending: 1, polls: counter() }));
    let second = Task::new(&mut ids, Box::new(Once { polls: counter() }));
    let (a, b) = (first.task_id(), second.task_id());
    executor.get_spawner().spawn(first);
    executor.get_spawner().spawn(second);
    TaskWaker::new(b).wake_task(executor.get_spawner());
    let (state, reports) = executor.run(2);
    assert_eq!(state, RunState::Busy);
    assert_eq!(reports.len(), 2);
    assert_eq!(reports[0].polled, Polled::Pending(a));
    assert_eq!(reports[1].polled, Polled::Completed(b));
    let (state, reports) = executor.run(5);
    assert_eq!(state, RunState::Idle);
    assert_eq!(reports.len(), 1);
    assert_eq!(reports[0].polled, Polled::Stale(b));
}

/// Notes the wake handle it is polled with, then finishes.
struct NotesHandle {
    seen: Rc<Cell<Option<TaskId>>>,
}

impl Computation for NotesHandle {
    fn poll_once(&mut self, context: &mut Context) -> PollState {
        self.seen.set(Some(context.waker().task_id()));
        PollState::Ready
    }
}

#[test]
fn a_task_is_polled_with_its_own_wake_handle() {
    let mut ids = TaskIdCounter::new();
    let mut executor = Executor::new();
    let mut expected = Vec::new();
    let mut seen = Vec::new();
    for _ in 0..4 {
        let cell = Rc::new(Cell::new(None));
        let task = Task::new(&mut ids, Box::new(NotesHandle { seen: cell.clone() }));
        expected.push(Some(task.task_id()));
        seen.push(cell);
        executor.get_spawner().spawn(task);
    }
    assert_eq!(executor.run_ready_task().len(), 4);
    let seen: Vec<Option<TaskId>> = seen.iter().map(|cell| cell.get()).collect();
    assert_eq!(seen, expected);
}

#[test]
fn every_step_polls_its_task_exactly_once() {
    let mut ids = TaskIdCounter::new();
    let mut executor = Executor::new();
    let polls = counter();
    let task = Task::new(&mut ids, Box::new(Countdown { pending: 3, polls: polls.clone() }));
    let id = task.task_id();
    executor.get_spawner().spawn(task);
    for step in 1..=3 {
        assert_eq!(executor.poll_ready_task().polled, Polled::Pending(id));
        assert_eq!(polls.get(), step);
        assert_eq!(executor.poll_ready_task().polled, Polled::Idle);
        assert_eq!(polls.get(), step);
        TaskWaker::new(id).wake_task(executor.get_spawner());
    }
    assert_eq!(executor.poll_ready_task().polled, Polled::Completed(id));
    assert_eq!(polls.get(), 4);
}

/// Wakes itself `left` times, once at each poll, then finishes; at the poll
/// at which it finishes it wakes itself `parting` times more.
struct SelfWaking {
    left: u32,
    parting: u32,
    polls: Rc<Cell<u32>>,
}

impl Computation for SelfWaking {
    fn poll_once(&mut self, context: &mut Context) -> PollState {
        self.polls.set(self.polls.get() + 1);
        if self.left == 0 {
            for _ in 0..self.parting {
                context.wake_by_ref();
            }
            PollState::Ready
        } else {
            self.left -= 1;
            context.wake_by_ref();
            PollState::Pending
        }
    }
}

#[test]
fn draining_handles_the_wakes_of_its_own_polls() {
    let mut ids = TaskIdCounter::new();
    let mut executor = Executor::new();
    let polls = counter();
    let task = Task::new(
        &mut ids,
        Box::new(SelfWaking { left: 3, parting: 0, polls: polls.clone() }),
    );
    let id = task.task_id();
    executor.get_spawner().spawn(task);
    let reports = executor.run_ready_task();
    let polled: Vec<Polled> = reports.iter().map(|report| report.polled).collect();
    assert_eq!(
        polled,
        vec![
            Polled::Pending(id),
            Polled::Pending(id),
            Polled::Pending(id),
            Polled::Completed(id)
        ]
    );
    assert_eq!(polls.get(), 4);
    assert!(executor.is_finished());
    assert_eq!(executor.get_spawner().ready_count(), 0);
    assert!(executor.run_ready_task().is_empty());
}

#[test]
fn draining_after_a_duplicate_wake_leaves_nothing_behind() {
    for parting in 0..3 {
        let mut ids = TaskIdCounter::new();
        let mut executor = Executor::new();
        let polls = counter();
        let task = Task::new(
            &mut ids,
            Box::new(SelfWaking { left: 0, parting, polls: polls.clone() }),
        );
        let id = task.task_id();
        executor.get_spawner().spawn(task);
        // The wake handle is invoked a second time before the first poll.
        TaskWaker::new(id).wake_task(executor.get_spawner());
        let reports = executor.run_ready_task();
        assert_eq!(reports.len(), 2 + parting as usize);
        assert_eq!(reports[0].polled, Polled::Completed(id));
        assert_eq!(reports[0].woken.len(), parting as usize);
        for report in &reports[1..] {
            assert_eq!(report.polled, Polled::Stale(id));
        }
        assert_eq!(polls.get(), 1);
        assert!(executor.is_finished());
        assert!(!executor.get_spawner().contains(id));
        assert_eq!(executor.get_spawner().ready_count(), 0);
        assert_eq!(executor.sleep_if_idle(), IdleAction::Halt);
    }
}

#[test]
fn draining_stops_at_an_overflow() {
    let mut ids = TaskIdCounter::new();
    let mut executor = Executor::new();
    for _ in 0..MAX_AMOUNT_OF_QUEUED_TASKS - 1 {
        let task = Task::new(&mut ids, Box::new(Rewake { wakes: 2 }));
        executor.get_spawner().spawn(task);
    }
    // 127 wait; each poll frees one place and takes two: the second poll
    // finds the queue full.
    let reports = executor.run_ready_task();
    assert_eq!(reports.len(), 2);
    assert!(!reports[0].overflowed);
    assert!(reports[1].overflowed);
    assert_eq!(executor.get_spawner().ready_count(), MAX_AMOUNT_OF_QUEUED_TASKS);
}
