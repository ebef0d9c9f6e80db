//! Reading lines from a buffer of keys, for a kernel without tasks.

use crate::task::keyboard::{typed, DecodedKey, LineOutput, LineReader};
use crate::task::Poll;
use std::collections::VecDeque;
use vstd::prelude::*;

verus! {

/// The maximal amount of unhandled keys. Keys that arrive beyond it are
/// dropped.
pub const KEY_BUFFER_SIZE: usize = 32;

/// The buffer of decoded keys between the keyboard and a reader that asks
/// for them when it pleases.
pub struct KeyBuffer {
    keys: VecDeque<DecodedKey>,
}

impl KeyBuffer {
    /// The unhandled keys, oldest first.
    pub closed spec fn keys(&self) -> Seq<DecodedKey> {
        self.keys@
    }

    /// An empty buffer.
    pub fn new() -> (buffer: KeyBuffer)
        ensures
            buffer.keys() == Seq::<DecodedKey>::empty(),
    {
        KeyBuffer { keys: VecDeque::with_capacity(KEY_BUFFER_SIZE) }
    }

    /// Queues a key behind the unhandled ones and says whether it was taken;
    /// a key that finds `KEY_BUFFER_SIZE` unhandled keys is dropped.
    pub fn push_key(&mut self, key: DecodedKey) -> (taken: bool)
        ensures
            taken == (old(self).keys().len() < KEY_BUFFER_SIZE),
            final(self).keys() == if taken {
                old(self).keys().push(key)
            } else {
                old(self).keys()
            },
    {
        broadcast use vstd::std_specs::vecdeque::group_vec_dequeue_axioms;

        if self.keys.len() < KEY_BUFFER_SIZE {
            self.keys.push_back(key);
            true
        } else {
            false
        }
    }
}

/// Returns the next key, the oldest of the unhandled ones.
pub fn pop_key(buffer: &mut KeyBuffer) -> (key: Option<DecodedKey>)
    ensures
        old(buffer).keys().len() == 0 ==> key.is_none(),
        old(buffer).keys().len() == 0 ==> final(buffer).keys() == old(buffer).keys(),
        old(buffer).keys().len() > 0 ==> key == Some(old(buffer).keys()[0]),
        old(buffer).keys().len() > 0 ==> final(buffer).keys() == old(buffer).keys().skip(1),
{
    let key = buffer.keys.pop_front();
    proof {
        if key.is_some() {
            assert(buffer.keys@ =~= old(buffer).keys@.skip(1));
        }
    }
    key
}

/// Returns the amount of currently queued keys.
pub fn len(buffer: &KeyBuffer) -> (len: usize)
    ensures
        len == buffer.keys().len(),
{
    broadcast use vstd::std_specs::vecdeque::group_vec_dequeue_axioms;

    buffer.keys.len()
}

/// Reads on a line from the key buffer: takes the unhandled keys, one after
/// the other, until one of them ends the line, and appends to `output` what
/// is to be shown for each. The line ends with the line terminator or when
/// it has reached the reader's bound. If the keys run out first, the poll is
/// pending and the caller may halt until the next interrupt.
pub fn get_new_line(reader: &mut LineReader, buffer: &mut KeyBuffer, output: &mut Vec<LineOutput>) -> (poll:
    Poll<String>)
    ensures
        final(reader).max_len() == old(reader).max_len(),
        ({
            let read = typed(old(reader).line(), old(buffer).keys(), old(reader).max_len());
            &&& final(reader).line() == read.1
            &&& final(output)@ == old(output)@ + read.3
            &&& final(buffer).keys() == old(buffer).keys().skip(read.2 as int)
            &&& read.0 ==> (poll matches Poll::Ready(line) && line@ == read.1)
            &&& !read.0 ==> poll is Pending
        }),
{
    let ghost keys = buffer.keys();
    let ghost read = typed(reader.line(), keys, reader.max_len());
    let ghost mut used: nat = 0;
    loop
        invariant
            reader.max_len() == old(reader).max_len(),
            keys == old(buffer).keys(),
            read == typed(old(reader).line(), keys, old(reader).max_len()),
            used <= keys.len(),
            buffer.keys() == keys.skip(used as int),
            ({
                let ahead = typed(reader.line(), keys.skip(used as int), reader.max_len());
                &&& read.0 == ahead.0
                &&& read.1 == ahead.1
                &&& read.2 == used + ahead.2
                &&& old(output)@ + read.3 == output@ + ahead.3
            }),
        decreases buffer.keys().len(),
    {
        let ghost left = keys.skip(used as int);
        match pop_key(buffer) {
            Some(key) => {
                let ghost line = reader.line();
                let ghost shown = output@;
                let step = reader.accept(key);
                if let Some(item) = step.0 {
                    output.push(item);
                }
                proof {
                    assert(left.skip(1) =~= keys.skip(used as int + 1));
                    let ahead = typed(line, left, reader.max_len());
                    if !step.1 {
                        let rest = typed(reader.line(), left.skip(1), reader.max_len());
                        assert(shown + ahead.3 =~= output@ + rest.3);
                    } else {
                        assert(shown + ahead.3 =~= output@);
                    }
                    used = used + 1;
                }
                if step.1 {
                    proof {
                        assert(old(output)@ + read.3 =~= output@);
                    }
                    return Poll::Ready(reader.current_line());
                }
            },
            None => {
                proof {
                    assert(old(output)@ + read.3 =~= output@);
                }
                return Poll::Pending;
            },
        }
    }
}

} // verus!
