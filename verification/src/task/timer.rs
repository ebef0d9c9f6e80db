//! The timer bridge: from ticks that the timer interrupt counts to
//! notifications for a task that waits for every so many of them.

use super::{Context, Poll, TaskWaker};
use vstd::prelude::*;

verus! {

/// The tick count that follows `counter`: the counter runs through all
/// 64-bit numbers and then starts over.
pub open spec fn next_tick(counter: u64) -> u64 {
    if counter == u64::MAX {
        0
    } else {
        (counter + 1) as u64
    }
}

/// How many ticks lie between the baseline `last` and the count `now`,
/// given that the counter started over at most once in between.
pub open spec fn ticks_between(last: u64, now: u64) -> u64 {
    if now >= last {
        (now - last) as u64
    } else {
        (now - last + 0x1_0000_0000_0000_0000) as u64
    }
}

/// The baseline one stride further on, counted like the ticks: through all
/// 64-bit numbers and then from zero again.
pub open spec fn advanced_by(baseline: u64, stride: u64) -> u64 {
    if baseline + stride > u64::MAX {
        (baseline + stride - 0x1_0000_0000_0000_0000) as u64
    } else {
        (baseline + stride) as u64
    }
}

/// The stream of the timer bridge exists already.
#[derive(Clone, Copy, Debug, PartialEq, Eq, Structural)]
pub struct TimerTaken;

/// The timer bridge: the running count of timer interrupts, and the one
/// slot for the wake handle of the task that waits for ticks. The slot
/// exists once the tick stream has been made.
pub struct TimerBridge {
    counter: u64,
    initialized: bool,
    waker: Option<TaskWaker>,
}

impl TimerBridge {
    /// The number of timer interrupts so far, counted modulo 2^64.
    pub closed spec fn counter(&self) -> u64 {
        self.counter
    }

    /// Whether the tick stream of this bridge has been made.
    pub closed spec fn initialized(&self) -> bool {
        self.initialized
    }

    /// The wake handle in the slot, if one is registered.
    pub closed spec fn registered(&self) -> Option<TaskWaker> {
        self.waker
    }

    /// Without a stream there is no slot, so nothing is registered.
    pub open spec fn wf(&self) -> bool {
        !self.initialized() ==> self.registered().is_none()
    }

    /// A bridge that has counted nothing and has no stream.
    pub fn new() -> (bridge: TimerBridge)
        ensures
            bridge.wf(),
            bridge.counter() == 0,
            !bridge.initialized(),
            bridge.registered().is_none(),
    {
        TimerBridge { counter: 0, initialized: false, waker: None }
    }

    pub fn is_initialized(&self) -> (initialized: bool)
        ensures
            initialized == self.initialized(),
    {
        self.initialized
    }

    /// The current count.
    pub fn ticks(&self) -> (ticks: u64)
        ensures
            ticks == self.counter(),
    {
        self.counter
    }
}

/// The producer side of the timer bridge, for the timer interrupt: counts
/// one tick and takes the registered wake handle out of its slot, to be
/// invoked. Without a stream the tick is counted and nobody is woken.
pub fn tick(bridge: &mut TimerBridge) -> (woken: Option<TaskWaker>)
    requires
        old(bridge).wf(),
    ensures
        final(bridge).wf(),
        final(bridge).counter() == next_tick(old(bridge).counter()),
        final(bridge).initialized() == old(bridge).initialized(),
        final(bridge).registered().is_none(),
        woken == old(bridge).registered(),
{
    bridge.counter = bridge.counter.wrapping_add(1);
    if bridge.initialized {
        let waker = bridge.waker;
        bridge.waker = None;
        waker
    } else {
        None
    }
}

/// The consumer side of the timer bridge: a never-ending source of
/// notifications, one for every `ticks` timer interrupts or more.
pub struct TickStream {
    ticks: u64,
    last_tick: u64,
}

impl TickStream {
    /// The number of ticks that must pass before the next notification.
    pub closed spec fn stride(&self) -> u64 {
        self.ticks
    }

    /// The count at which the last notification was given, or at which the
    /// stream was made.
    pub closed spec fn baseline(&self) -> u64 {
        self.last_tick
    }

    /// Whether a notification is due at the count `now`: at least `stride`
    /// ticks were counted since the baseline.
    pub open spec fn due(&self, now: u64) -> bool {
        ticks_between(self.baseline(), now) >= self.stride()
    }

    /// Makes the tick stream of a bridge; the ticks counted so far do not
    /// count towards its first notification. A second stream for the same
    /// bridge is a programming error and is excluded here; `try_new` reports
    /// it instead.
    pub fn new(bridge: &mut TimerBridge, ticks: u64) -> (stream: TickStream)
        requires
            old(bridge).wf(),
            !old(bridge).initialized(),
        ensures
            stream.stride() == ticks,
            stream.baseline() == old(bridge).counter(),
            final(bridge).wf(),
            final(bridge).initialized(),
            final(bridge).counter() == old(bridge).counter(),
            final(bridge).registered().is_none(),
    {
        bridge.initialized = true;
        TickStream { ticks, last_tick: bridge.counter }
    }

    /// Makes the tick stream of a bridge unless it exists already.
    pub fn try_new(bridge: &mut TimerBridge, ticks: u64) -> (stream: Result<
        TickStream,
        TimerTaken,
    >)
        requires
            old(bridge).wf(),
        ensures
            final(bridge).wf(),
            final(bridge).initialized(),
            final(bridge).counter() == old(bridge).counter(),
            final(bridge).registered() == old(bridge).registered(),
            stream is Ok <==> !old(bridge).initialized(),
            stream matches Ok(made) ==> made.stride() == ticks,
            stream matches Ok(made) ==> made.baseline() == old(bridge).counter(),
    {
        if bridge.is_initialized() {
            Err(TimerTaken)
        } else {
            Ok(TickStream::new(bridge, ticks))
        }
    }

    /// The baseline as a number.
    pub fn last_tick(&self) -> (last_tick: u64)
        ensures
            last_tick == self.baseline(),
    {
        self.last_tick
    }

    /// Registers the wake handle so that the next tick wakes its task, and
    /// reports that no notification is due.
    fn ret_pending(&self, bridge: &mut TimerBridge, waker: TaskWaker) -> (poll: Poll<Option<()>>)
        requires
            old(bridge).initialized(),
        ensures
            poll == Poll::<Option<()>>::Pending,
            final(bridge).registered() == Some(waker),
            final(bridge).initialized(),
            final(bridge).counter() == old(bridge).counter(),
    {
        bridge.waker = Some(waker);
        Poll::Pending
    }

    /// Polls for the next notification. One is due when at least `stride`
    /// ticks were counted since the baseline; the baseline then moves on by
    /// one stride, so that the ticks counted beyond the stride count towards
    /// the next notification. If none is due, the wake handle of the polling
    /// task is registered and the poll is pending.
    pub fn poll_next(&mut self, bridge: &mut TimerBridge, context: &Context) -> (poll: Poll<
        Option<()>,
    >)
        requires
            old(bridge).initialized(),
        ensures
            final(self).stride() == old(self).stride(),
            final(bridge).initialized(),
            final(bridge).wf(),
            final(bridge).counter() == old(bridge).counter(),
            poll == if old(self).due(old(bridge).counter()) {
                Poll::Ready(Some(()))
            } else {
                Poll::Pending
            },
            final(self).baseline() == if poll is Pending {
                old(self).baseline()
            } else {
                advanced_by(old(self).baseline(), old(self).stride())
            },
            final(bridge).registered() == if poll is Pending {
                Some(context.own_waker())
            } else {
                old(bridge).registered()
            },
    {
        let ticks = bridge.counter;
        let difference = ticks.wrapping_sub(self.last_tick);
        if difference >= self.ticks {
            self.last_tick = self.last_tick.wrapping_add(self.ticks);
            Poll::Ready(Some(()))
        } else {
            self.ret_pending(bridge, context.waker())
        }
    }
}

/// Every tick is counted once. A tick moves the count one further from any
/// baseline, as long as the counter has not run all the way round. And when
/// a notification is due and the baseline moves on by one stride, the ticks
/// that were counted beyond the stride still lie between the new baseline
/// and the count: none is lost, and none is counted again.
pub proof fn lemma_ticks_are_counted_once(last: u64, now: u64, stride: u64)
    ensures
        ticks_between(last, now) < u64::MAX ==> ticks_between(last, next_tick(now))
            == ticks_between(last, now) + 1,
        ticks_between(last, now) >= stride ==> ticks_between(advanced_by(last, stride), now)
            == ticks_between(last, now) - stride,
{
}

/// Notifications keep to the stride however late the polls come: a stream
/// whose poll comes `late` ticks after a notification was due is due again
/// once a full stride has passed since that notification was due, not since
/// the poll.
pub proof fn lemma_late_poll_does_not_shift_the_stride(stream: TickStream, now: u64, later: u64)
    requires
        stream.due(now),
        ticks_between(stream.baseline(), now) <= ticks_between(stream.baseline(), later),
    ensures
        ticks_between(advanced_by(stream.baseline(), stream.stride()), later) >= stream.stride()
            <==> ticks_between(stream.baseline(), later) >= 2 * stream.stride(),
{
}

/// A suspended stream resumes with the tick that completes its stride: if
/// one tick is missing for a notification to be due, none is due now, and
/// one is due after the next tick.
pub proof fn lemma_last_tick_of_stride_resumes(stream: TickStream, now: u64)
    requires
        ticks_between(stream.baseline(), now) + 1 == stream.stride(),
    ensures
        !stream.due(now),
        stream.due(next_tick(now)),
{
}

} // verus!
