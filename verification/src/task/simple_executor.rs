//! A scheduler without wake-ups, for programs that only want to be polled
//! in turn.

use super::{Context, PollState, Task, TaskWaker};
use std::collections::VecDeque;
use vstd::prelude::*;

verus! {

/// A round-robin executor without wake-ups: it polls its tasks in turn,
/// over and over, until each has finished. The wake handles it hands to the
/// tasks do nothing.
pub struct SimpleExecutor {
    task_queue: VecDeque<Task>,
}

impl SimpleExecutor {
    /// The unfinished tasks, the next one to be polled first.
    pub closed spec fn tasks(&self) -> Seq<Task> {
        self.task_queue@
    }

    pub fn new() -> (executor: SimpleExecutor)
        ensures
            executor.tasks() == Seq::<Task>::empty(),
    {
        SimpleExecutor { task_queue: VecDeque::with_capacity(8) }
    }

    /// Queues the task behind the unfinished ones.
    pub fn spawn(&mut self, task: Task)
        ensures
            final(self).tasks() == old(self).tasks().push(task),
    {
        self.task_queue.push_back(task);
    }

    /// How many tasks are unfinished.
    pub fn len(&self) -> (len: usize)
        ensures
            len == self.tasks().len(),
    {
        broadcast use vstd::std_specs::vecdeque::group_vec_dequeue_axioms;

        self.task_queue.len()
    }

    /// Polls the task at the front once. A finished task is dropped, a
    /// suspended one goes to the back of the row. Returns what the task
    /// reported, or `None` if no task is left.
    pub fn poll_front(&mut self) -> (polled: Option<PollState>)
        ensures
            polled is None <==> old(self).tasks().len() == 0,
            polled is None ==> final(self).tasks() == old(self).tasks(),
            polled matches Some(state) ==> front_polled(
                old(self).tasks(),
                final(self).tasks(),
                state,
            ),
    {
        match self.task_queue.pop_front() {
            None => None,
            Some(mut task) => {
                assert(self.task_queue@ =~= old(self).task_queue@.skip(1));
                let mut context = Context::from_waker(TaskWaker::new(task.task_id()));
                match task.poll(&mut context) {
                    PollState::Ready => Some(PollState::Ready),
                    PollState::Pending => {
                        self.task_queue.push_back(task);
                        assert(self.task_queue@.drop_last() =~= old(self).task_queue@.skip(1));
                        Some(PollState::Pending)
                    },
                }
            },
        }
    }

    /// Polls tasks in turn until none is left or `budget` polls were made.
    /// Returns whether none is left, and what each poll reported, in order.
    pub fn run(&mut self, budget: usize) -> (run: (bool, Vec<PollState>))
        ensures
            run.0 == (final(self).tasks().len() == 0),
            run.1@.len() <= budget,
            !run.0 ==> run.1@.len() == budget,
            polls_made(old(self).tasks(), final(self).tasks(), run.1@),
    {
        let mut polls: Vec<PollState> = Vec::new();
        let ghost mut rows: Seq<Seq<Task>> = seq![self.tasks()];
        loop
            invariant
                polls@.len() <= budget,
                rows_polled(rows, old(self).tasks(), self.tasks(), polls@),
            decreases budget - polls@.len(),
        {
            if self.len() == 0 {
                return (true, polls);
            }
            if polls.len() == budget {
                return (false, polls);
            }
            let ghost earlier = polls@;
            match self.poll_front() {
                Some(state) => {
                    polls.push(state);
                },
                None => {},
            }
            proof {
                let later = polls@;
                let longer = rows.push(self.tasks());
                assert forall|i: int| 0 <= i < later.len() implies front_polled(
                    longer[i],
                    longer[i + 1],
                    #[trigger] later[i],
                ) by {
                    if i < earlier.len() {
                        assert(later[i] == earlier[i]);
                        assert(front_polled(rows[i], rows[i + 1], earlier[i]));
                    }
                }
                rows = longer;
                assert(rows_polled(rows, old(self).tasks(), self.tasks(), polls@));
            }
        }
    }
}

/// What one poll does to the row of unfinished tasks: the task at the front
/// leaves the row if it has finished, and goes to the back if it has
/// suspended. Whatever it has become, it is the task it was, polled once
/// more.
pub open spec fn front_polled(before: Seq<Task>, after: Seq<Task>, state: PollState) -> bool {
    &&& before.len() > 0
    &&& state == PollState::Ready ==> after == before.skip(1)
    &&& state == PollState::Pending ==> after.len() == before.len() && after.drop_last()
        == before.skip(1) && after.last().id() == before[0].id() && after.last().polls()
        == before[0].polls() + 1
}

/// Whether `rows` are the rows of unfinished tasks that the polls with the
/// reports `polls` lead through, one after the other, from `first` to
/// `last`.
pub open spec fn rows_polled(
    rows: Seq<Seq<Task>>,
    first: Seq<Task>,
    last: Seq<Task>,
    polls: Seq<PollState>,
) -> bool {
    &&& rows.len() == polls.len() + 1
    &&& rows[0] == first
    &&& rows.last() == last
    &&& forall|i: int| 0 <= i < polls.len() ==> front_polled(rows[i], rows[i + 1], #[trigger] polls[i])
}

/// Whether polls with the reports `polls`, made one after the other, each
/// of the task then at the front, lead from the row `first` to the row
/// `last`.
pub open spec fn polls_made(first: Seq<Task>, last: Seq<Task>, polls: Seq<PollState>) -> bool {
    exists|rows: Seq<Seq<Task>>| #[trigger] rows_polled(rows, first, last, polls)
}

} // verus!
