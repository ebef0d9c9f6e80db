//! The bounded queues behind the ready queue and the keyboard bridge.

use crossbeam_queue::ArrayQueue;
use vstd::prelude::*;

verus! {

/// The bounded queue of `crossbeam-queue`. The scheduler and the keyboard
/// bridge each own one and reach it through the functions below, all of
/// which take the queue by exclusive reference where they change it: what
/// they state holds of a queue that nobody else pushes to or pops from in
/// the meantime.
#[verifier::external_type_specification]
#[verifier::external_body]
#[verifier::reject_recursive_types(T)]
pub struct ExArrayQueue<T>(ArrayQueue<T>);

/// The largest capacity this library asks a bounded queue for.
pub const MAX_QUEUE_CAPACITY: usize = 65536;

/// The task identifiers waiting in a bounded queue, oldest first.
pub uninterp spec fn ready_ids(queue: ArrayQueue<u64>) -> Seq<u64>;

/// The capacity a bounded queue of task identifiers was created with.
pub uninterp spec fn ready_limit(queue: ArrayQueue<u64>) -> nat;

/// The raw bytes waiting in a bounded queue, oldest first.
pub uninterp spec fn queued_bytes(queue: ArrayQueue<u8>) -> Seq<u8>;

/// The capacity a bounded queue of bytes was created with.
pub uninterp spec fn byte_limit(queue: ArrayQueue<u8>) -> nat;

/// `ArrayQueue::new` for task identifiers: the queue starts empty and keeps
/// the capacity it was given. The crate panics for a capacity of zero and for
/// one too large to round up to a power of two; both are excluded here.
#[verifier::external_body]
pub(crate) fn new_id_queue(capacity: usize) -> (queue: ArrayQueue<u64>)
    requires
        0 < capacity <= MAX_QUEUE_CAPACITY,
    ensures
        ready_ids(queue) == Seq::<u64>::empty(),
        ready_limit(queue) == capacity,
{
    ArrayQueue::new(capacity)
}

/// `ArrayQueue::push` on a queue nobody else holds: the value is appended
/// behind what is waiting, unless the queue already holds as many values as
/// its capacity, in which case the value comes back and nothing changes.
#[verifier::external_body]
pub(crate) fn push_id(queue: &mut ArrayQueue<u64>, id: u64) -> (pushed: Result<(), u64>)
    ensures
        ready_limit(*final(queue)) == ready_limit(*old(queue)),
        ready_ids(*old(queue)).len() < ready_limit(*old(queue)) ==> (pushed is Ok)
            && ready_ids(*final(queue)) == ready_ids(*old(queue)).push(id),
        ready_ids(*old(queue)).len() >= ready_limit(*old(queue)) ==> (pushed matches Err(back) && back == id)
            && ready_ids(*final(queue)) == ready_ids(*old(queue)),
{
    queue.push(id)
}

/// `ArrayQueue::pop` on a queue nobody else holds: the oldest value leaves
/// the queue and is returned; an empty queue gives `None` and stays empty.
#[verifier::external_body]
pub(crate) fn pop_id(queue: &mut ArrayQueue<u64>) -> (popped: Option<u64>)
    ensures
        ready_limit(*final(queue)) == ready_limit(*old(queue)),
        ready_ids(*old(queue)).len() == 0 ==> popped.is_none() && ready_ids(*final(queue))
            == ready_ids(*old(queue)),
        ready_ids(*old(queue)).len() > 0 ==> popped == Some(ready_ids(*old(queue))[0])
            && ready_ids(*final(queue)) == ready_ids(*old(queue)).skip(1),
{
    queue.pop()
}

/// `ArrayQueue::is_empty`: whether no value is waiting.
#[verifier::external_body]
pub(crate) fn id_queue_is_empty(queue: &ArrayQueue<u64>) -> (empty: bool)
    ensures
        empty == (ready_ids(*queue).len() == 0),
{
    queue.is_empty()
}

/// `ArrayQueue::len`: how many values are waiting.
#[verifier::external_body]
pub(crate) fn id_queue_len(queue: &ArrayQueue<u64>) -> (len: usize)
    ensures
        len == ready_ids(*queue).len(),
{
    queue.len()
}

/// `ArrayQueue::new` for raw bytes: the queue starts empty and keeps the
/// capacity it was given. Capacities for which the crate panics are excluded.
#[verifier::external_body]
pub(crate) fn new_byte_queue(capacity: usize) -> (queue: ArrayQueue<u8>)
    requires
        0 < capacity <= MAX_QUEUE_CAPACITY,
    ensures
        queued_bytes(queue) == Seq::<u8>::empty(),
        byte_limit(queue) == capacity,
{
    ArrayQueue::new(capacity)
}

/// `ArrayQueue::push` on a queue of bytes nobody else holds: the byte is
/// appended unless the queue is at capacity, in which case it comes back and
/// nothing changes.
#[verifier::external_body]
pub(crate) fn push_byte(queue: &mut ArrayQueue<u8>, byte: u8) -> (pushed: Result<(), u8>)
    ensures
        byte_limit(*final(queue)) == byte_limit(*old(queue)),
        queued_bytes(*old(queue)).len() < byte_limit(*old(queue)) ==> (pushed is Ok)
            && queued_bytes(*final(queue)) == queued_bytes(*old(queue)).push(byte),
        queued_bytes(*old(queue)).len() >= byte_limit(*old(queue)) ==> (pushed matches Err(back) && back == byte) && queued_bytes(*final(queue)) == queued_bytes(*old(queue)),
{
    queue.push(byte)
}

/// `ArrayQueue::pop` on a queue of bytes nobody else holds: the oldest byte
/// leaves the queue and is returned; an empty queue gives `None`.
#[verifier::external_body]
pub(crate) fn pop_byte(queue: &mut ArrayQueue<u8>) -> (popped: Option<u8>)
    ensures
        byte_limit(*final(queue)) == byte_limit(*old(queue)),
        queued_bytes(*old(queue)).len() == 0 ==> popped.is_none() && queued_bytes(*final(queue))
            == queued_bytes(*old(queue)),
        queued_bytes(*old(queue)).len() > 0 ==> popped == Some(queued_bytes(*old(queue))[0])
            && queued_bytes(*final(queue)) == queued_bytes(*old(queue)).skip(1),
{
    queue.pop()
}

} // verus!
