//! The keyboard bridge: from scancodes that the keyboard interrupt hands in
//! to keys, and from keys to lines of text.

use super::queue::{byte_limit, new_byte_queue, pop_byte, push_byte, queued_bytes};
use super::{Context, Poll, TaskWaker};
use crate::util::{byte_len, push_char};
use crossbeam_queue::ArrayQueue;
use pc_keyboard::layouts::Us104Key;
use pc_keyboard::{HandleControl, KeyCode, Keyboard, ScancodeSet1};
use vstd::prelude::*;
use vstd::utf8::{encode_utf8, is_ascii_chars, is_ascii_chars_encode_utf8};

verus! {

/// The keyboard decoder of `pc_keyboard` for the US 104-key layout and
/// scancode set 1. The parameters of the outside type are bound by outside
/// traits, which keeps it from being declared as an outside type, so the
/// decoder is held in this struct, whose inside stays opaque to the proofs.
#[verifier::external_body]
pub struct KeyDecoder {
    keyboard: Keyboard<Us104Key, ScancodeSet1>,
}

/// The code of a key, as `pc_keyboard` names it.
#[verifier::external_type_specification]
#[verifier::external_body]
pub struct ExKeyCode(KeyCode);

/// The reason for which `pc_keyboard` rejects a byte.
#[verifier::external_type_specification]
#[verifier::external_body]
pub struct ExKeyboardError(pc_keyboard::Error);

/// How many raw scancodes the keyboard bridge holds at most.
pub const SCANCODE_QUEUE_SIZE: usize = 128;

/// A key as the keyboard decoder reports it.
#[derive(Clone, Copy, Debug, PartialEq, Eq)]
pub enum DecodedKey {
    /// A key without a character, by its code.
    RawKey(KeyCode),
    /// A key that stands for a character.
    Unicode(char),
}

/// A key going down or up, as the decoder assembles it from scancodes.
#[derive(Clone, Copy, Debug, PartialEq, Eq)]
pub struct KeyChange {
    pub code: KeyCode,
    pub down: bool,
}

/// One thing a keyboard decoder was given: a raw byte, or a key change to
/// turn into a decoded key.
pub enum KeyInput {
    Byte(u8),
    Event(KeyChange),
}

/// Everything a keyboard decoder was given since it was made, in order. The
/// decoder is a deterministic state machine, so this determines its state.
pub uninterp spec fn keyboard_inputs(decoder: KeyDecoder) -> Seq<KeyInput>;

/// What `Keyboard::add_byte` returns for `byte`, on a US 104-key decoder for
/// scancode set 1 that was given `inputs` before.
pub uninterp spec fn added_byte(inputs: Seq<KeyInput>, byte: u8) -> Result<
    Option<KeyChange>,
    pc_keyboard::Error,
>;

/// What `Keyboard::process_keyevent` returns for `event`, on a US 104-key
/// decoder for scancode set 1 that ignores the control key and was given
/// `inputs` before.
pub uninterp spec fn processed_keyevent(inputs: Seq<KeyInput>, event: KeyChange) -> Option<
    DecodedKey,
>;

/// `Keyboard::new` for the US 104-key layout, scancode set 1 and no special
/// handling of the control key: a decoder that was given nothing yet.
#[verifier::external_body]
pub(crate) fn new_keyboard() -> (keyboard: KeyDecoder)
    ensures
        keyboard_inputs(keyboard) == Seq::<KeyInput>::empty(),
{
    KeyDecoder { keyboard: Keyboard::new(Us104Key, ScancodeSet1, HandleControl::Ignore) }
}

/// `Keyboard::add_byte`: the result is the one named `added_byte`, a key
/// event being handed on field by field, and the byte joins what the decoder
/// was given. For scancode set 1 the decoder never leaves the two states it
/// handles, so the call does not panic.
#[verifier::external_body]
pub(crate) fn keyboard_add_byte(keyboard: &mut KeyDecoder, byte: u8) -> (added:
    Result<Option<KeyChange>, pc_keyboard::Error>)
    ensures
        added == added_byte(keyboard_inputs(*old(keyboard)), byte),
        keyboard_inputs(*final(keyboard)) == keyboard_inputs(*old(keyboard)).push(
            KeyInput::Byte(byte),
        ),
{
    match keyboard.keyboard.add_byte(byte) {
        Ok(Some(event)) => Ok(Some(KeyChange {
            code: event.code,
            down: matches!(event.state, pc_keyboard::KeyState::Down),
        })),
        Ok(None) => Ok(None),
        Err(error) => Err(error),
    }
}

/// `Keyboard::process_keyevent`: the result is the one named
/// `processed_keyevent`, variant for variant, and the event joins what the
/// decoder was given.
#[verifier::external_body]
pub(crate) fn keyboard_process_keyevent(
    keyboard: &mut KeyDecoder,
    event: KeyChange,
) -> (key: Option<DecodedKey>)
    ensures
        key == processed_keyevent(keyboard_inputs(*old(keyboard)), event),
        keyboard_inputs(*final(keyboard)) == keyboard_inputs(*old(keyboard)).push(
            KeyInput::Event(event),
        ),
{
    let state = if event.down { pc_keyboard::KeyState::Down } else { pc_keyboard::KeyState::Up };
    match keyboard.keyboard.process_keyevent(pc_keyboard::KeyEvent::new(event.code, state)) {
        Some(pc_keyboard::DecodedKey::RawKey(code)) => Some(DecodedKey::RawKey(code)),
        Some(pc_keyboard::DecodedKey::Unicode(character)) => Some(DecodedKey::Unicode(character)),
        None => None,
    }
}

/// The key that a decoder which was given `inputs` makes of one more
/// scancode: the byte is added, and if that completes a key event, the event
/// is processed. A byte that is rejected or completes nothing gives no key.
pub open spec fn decoded_key(inputs: Seq<KeyInput>, scancode: u8) -> Option<DecodedKey> {
    match added_byte(inputs, scancode) {
        Ok(Some(event)) => processed_keyevent(inputs.push(KeyInput::Byte(scancode)), event),
        _ => None,
    }
}

/// What the decoder was given once it has decoded one more scancode.
pub open spec fn inputs_after(inputs: Seq<KeyInput>, scancode: u8) -> Seq<KeyInput> {
    match added_byte(inputs, scancode) {
        Ok(Some(event)) => inputs.push(KeyInput::Byte(scancode)).push(KeyInput::Event(event)),
        _ => inputs.push(KeyInput::Byte(scancode)),
    }
}

/// The result of decoding queued scancodes, oldest first, up to and
/// including the first one that yields a key: that key if there is one, what
/// the decoder was given by then, and the scancodes left in the queue.
pub open spec fn first_key(inputs: Seq<KeyInput>, bytes: Seq<u8>) -> (Option<DecodedKey>, Seq<
    KeyInput,
>, Seq<u8>)
    decreases bytes.len(),
{
    if bytes.len() == 0 {
        (None, inputs, bytes)
    } else if decoded_key(inputs, bytes[0]) is Some {
        (decoded_key(inputs, bytes[0]), inputs_after(inputs, bytes[0]), bytes.skip(1))
    } else {
        first_key(inputs_after(inputs, bytes[0]), bytes.skip(1))
    }
}

/// What became of a scancode handed in by the keyboard interrupt.
#[derive(Clone, Copy, Debug, PartialEq, Eq, Structural)]
pub enum ScancodeOutcome {
    /// The scancode was queued. The wake handle that was registered, if any,
    /// has left its slot and is to be invoked.
    Queued(Option<TaskWaker>),
    /// The queue was full; the scancode was dropped.
    QueueFull,
    /// No stream has been made yet; the scancode was dropped.
    NotInitialized,
}

/// The stream of the keyboard bridge exists already.
#[derive(Clone, Copy, Debug, PartialEq, Eq, Structural)]
pub struct AlreadyInitialized;

/// The keyboard bridge: the bounded queue of raw scancodes that the keyboard
/// interrupt fills, the one slot for the wake handle of the task that waits
/// for keys, and the decoder that turns scancodes into keys.
pub struct ScancodeBridge {
    queue: Option<ArrayQueue<u8>>,
    waker: Option<TaskWaker>,
    keyboard: KeyDecoder,
}

impl ScancodeBridge {
    /// Whether the stream of this bridge has been made.
    pub closed spec fn initialized(&self) -> bool {
        self.queue is Some
    }

    /// The queued scancodes, oldest first; none before the stream is made.
    pub closed spec fn bytes(&self) -> Seq<u8> {
        match self.queue {
            Some(queue) => queued_bytes(queue),
            None => Seq::<u8>::empty(),
        }
    }

    /// The wake handle in the slot, if one is registered.
    pub closed spec fn registered(&self) -> Option<TaskWaker> {
        self.waker
    }

    /// Everything the decoder was given so far.
    pub closed spec fn inputs(&self) -> Seq<KeyInput> {
        keyboard_inputs(self.keyboard)
    }

    /// The queue, once made, is the one of `SCANCODE_QUEUE_SIZE` scancodes.
    pub closed spec fn wf(&self) -> bool {
        match self.queue {
            Some(queue) => byte_limit(queue) == SCANCODE_QUEUE_SIZE && queued_bytes(queue).len()
                <= SCANCODE_QUEUE_SIZE,
            None => true,
        }
    }

    /// A bridge without a stream: scancodes handed in are dropped.
    pub fn new() -> (bridge: ScancodeBridge)
        ensures
            bridge.wf(),
            !bridge.initialized(),
            bridge.bytes() == Seq::<u8>::empty(),
            bridge.registered().is_none(),
            bridge.inputs() == Seq::<KeyInput>::empty(),
    {
        ScancodeBridge { queue: None, waker: None, keyboard: new_keyboard() }
    }

    pub fn is_initialized(&self) -> (initialized: bool)
        ensures
            initialized == self.initialized(),
    {
        self.queue.is_some()
    }

    /// Feeds one scancode to the decoder and returns the key it completes,
    /// if it completes one.
    pub fn decode_key(&mut self, scancode: u8) -> (key: Option<DecodedKey>)
        ensures
            key == decoded_key(old(self).inputs(), scancode),
            final(self).inputs() == inputs_after(old(self).inputs(), scancode),
            final(self).initialized() == old(self).initialized(),
            final(self).bytes() == old(self).bytes(),
            final(self).registered() == old(self).registered(),
            old(self).wf() ==> final(self).wf(),
    {
        if let Ok(Some(key_event)) = keyboard_add_byte(&mut self.keyboard, scancode) {
            if let Some(key) = keyboard_process_keyevent(&mut self.keyboard, key_event) {
                return Some(key);
            }
        }
        None
    }
}

/// The producer side of the keyboard bridge, for the keyboard interrupt:
/// queues the scancode behind those that wait and takes the registered wake
/// handle out of its slot, to be invoked. A scancode that finds the queue
/// full or not yet made is dropped, and the slot is left alone.
pub fn add_scancode(bridge: &mut ScancodeBridge, scancode: u8) -> (outcome: ScancodeOutcome)
    requires
        old(bridge).wf(),
    ensures
        final(bridge).wf(),
        final(bridge).bytes().len() <= SCANCODE_QUEUE_SIZE,
        final(bridge).initialized() == old(bridge).initialized(),
        final(bridge).inputs() == old(bridge).inputs(),
        outcome == if !old(bridge).initialized() {
            ScancodeOutcome::NotInitialized
        } else if old(bridge).bytes().len() >= SCANCODE_QUEUE_SIZE {
            ScancodeOutcome::QueueFull
        } else {
            ScancodeOutcome::Queued(old(bridge).registered())
        },
        final(bridge).bytes() == if outcome is Queued {
            old(bridge).bytes().push(scancode)
        } else {
            old(bridge).bytes()
        },
        final(bridge).registered() == if outcome is Queued {
            None
        } else {
            old(bridge).registered()
        },
{
    match &mut bridge.queue {
        Some(queue) => {
            match push_byte(queue, scancode) {
                Ok(()) => {
                    let waker = bridge.waker;
                    bridge.waker = None;
                    ScancodeOutcome::Queued(waker)
                },
                Err(_) => ScancodeOutcome::QueueFull,
            }
        },
        None => ScancodeOutcome::NotInitialized,
    }
}

/// The consumer side of the keyboard bridge: a never-ending source of
/// decoded keys. There is at most one per bridge.
pub struct ScancodeStream {
    _prevent_construction: (),
}

impl ScancodeStream {
    /// Makes the stream of a bridge, and with it the bridge's queue. A
    /// second stream for the same bridge is a programming error and is
    /// excluded here; `try_new` reports it instead.
    pub fn new(bridge: &mut ScancodeBridge) -> (stream: ScancodeStream)
        requires
            !old(bridge).initialized(),
        ensures
            final(bridge).wf(),
            final(bridge).initialized(),
            final(bridge).bytes() == Seq::<u8>::empty(),
            final(bridge).registered() == old(bridge).registered(),
            final(bridge).inputs() == old(bridge).inputs(),
    {
        bridge.queue = Some(new_byte_queue(SCANCODE_QUEUE_SIZE));
        ScancodeStream { _prevent_construction: () }
    }

    /// Makes the stream of a bridge unless it exists already.
    pub fn try_new(bridge: &mut ScancodeBridge) -> (stream: Result<
        ScancodeStream,
        AlreadyInitialized,
    >)
        requires
            old(bridge).wf(),
        ensures
            final(bridge).wf(),
            final(bridge).initialized(),
            stream is Ok <==> !old(bridge).initialized(),
            stream is Err ==> *final(bridge) == *old(bridge),
            stream is Ok ==> final(bridge).bytes() == Seq::<u8>::empty(),
            final(bridge).registered() == old(bridge).registered(),
            final(bridge).inputs() == old(bridge).inputs(),
    {
        if bridge.is_initialized() {
            Err(AlreadyInitialized)
        } else {
            Ok(ScancodeStream::new(bridge))
        }
    }

    /// Registers the wake handle so that the next scancode wakes its task,
    /// and reports that no key is available.
    fn ret_pending(bridge: &mut ScancodeBridge, waker: TaskWaker) -> (poll: Poll<
        Option<DecodedKey>,
    >)
        ensures
            poll == Poll::<Option<DecodedKey>>::Pending,
            final(bridge).registered() == Some(waker),
            final(bridge).initialized() == old(bridge).initialized(),
            final(bridge).bytes() == old(bridge).bytes(),
            final(bridge).inputs() == old(bridge).inputs(),
            old(bridge).wf() ==> final(bridge).wf(),
    {
        bridge.waker = Some(waker);
        Poll::Pending
    }

    /// Polls for the next key. Queued scancodes are decoded oldest first
    /// until one yields a key, which is returned; scancodes that yield no
    /// key are consumed on the way. If the queue runs empty first, the wake
    /// handle of the polling task is registered and the poll is pending.
    pub fn poll_next(&mut self, bridge: &mut ScancodeBridge, context: &Context) -> (poll: Poll<
        Option<DecodedKey>,
    >)
        requires
            old(bridge).wf(),
            old(bridge).initialized(),
        ensures
            final(bridge).wf(),
            final(bridge).initialized(),
            poll == match first_key(old(bridge).inputs(), old(bridge).bytes()).0 {
                Some(key) => Poll::Ready(Some(key)),
                None => Poll::Pending,
            },
            final(bridge).inputs() == first_key(old(bridge).inputs(), old(bridge).bytes()).1,
            final(bridge).bytes() == first_key(old(bridge).inputs(), old(bridge).bytes()).2,
            final(bridge).registered() == if poll is Pending {
                Some(context.own_waker())
            } else {
                old(bridge).registered()
            },
    {
        loop
            invariant
                bridge.wf(),
                bridge.initialized(),
                bridge.registered() == old(bridge).registered(),
                first_key(bridge.inputs(), bridge.bytes()) == first_key(
                    old(bridge).inputs(),
                    old(bridge).bytes(),
                ),
            decreases bridge.bytes().len(),
        {
            let popped = match &mut bridge.queue {
                Some(queue) => pop_byte(queue),
                None => None,
            };
            let scancode = match popped {
                Some(scancode) => scancode,
                None => {
                    return ScancodeStream::ret_pending(bridge, context.waker());
                },
            };
            if let Some(key) = bridge.decode_key(scancode) {
                return Poll::Ready(Some(key));
            }
        }
    }
}

/// The keys that queued scancodes stand for, in the order of the queue.
pub open spec fn keys_of(inputs: Seq<KeyInput>, bytes: Seq<u8>) -> Seq<DecodedKey>
    decreases bytes.len(),
{
    if bytes.len() == 0 {
        Seq::<DecodedKey>::empty()
    } else {
        let rest = keys_of(inputs_after(inputs, bytes[0]), bytes.skip(1));
        match decoded_key(inputs, bytes[0]) {
            Some(key) => seq![key] + rest,
            None => rest,
        }
    }
}

/// A poll hands out the keys of the queue front to back: the key it yields
/// is the first key of the queued scancodes, and what it leaves behind
/// stands for the keys after that one. A pending poll means that the queued
/// scancodes stood for no key at all, and leaves the queue empty.
pub proof fn lemma_poll_yields_keys_in_order(inputs: Seq<KeyInput>, bytes: Seq<u8>)
    ensures
        first_key(inputs, bytes).0 matches Some(key) ==> keys_of(inputs, bytes) == seq![key]
            + keys_of(first_key(inputs, bytes).1, first_key(inputs, bytes).2),
        first_key(inputs, bytes).0 is None ==> keys_of(inputs, bytes).len() == 0 && first_key(
            inputs,
            bytes,
        ).2.len() == 0,
    decreases bytes.len(),
{
    if bytes.len() > 0 && decoded_key(inputs, bytes[0]) is None {
        lemma_poll_yields_keys_in_order(inputs_after(inputs, bytes[0]), bytes.skip(1));
    }
}

/// Scancodes leave the bridge in the order in which they entered it: three
/// scancodes pushed one after the other, each of which stands for a key,
/// are handed out by three polls as the key of the first, then the key of
/// the second, then the key of the third.
pub proof fn lemma_fifo_within_bridge(inputs: Seq<KeyInput>, v1: u8, v2: u8, v3: u8)
    requires
        decoded_key(inputs, v1) is Some,
        decoded_key(inputs_after(inputs, v1), v2) is Some,
        decoded_key(inputs_after(inputs_after(inputs, v1), v2), v3) is Some,
    ensures
        ({
            let queued = Seq::<u8>::empty().push(v1).push(v2).push(v3);
            let first = first_key(inputs, queued);
            let second = first_key(first.1, first.2);
            let third = first_key(second.1, second.2);
            &&& first.0 == decoded_key(inputs, v1)
            &&& second.0 == decoded_key(inputs_after(inputs, v1), v2)
            &&& third.0 == decoded_key(inputs_after(inputs_after(inputs, v1), v2), v3)
            &&& third.2.len() == 0
        }),
{
    let queued = Seq::<u8>::empty().push(v1).push(v2).push(v3);
    let first = first_key(inputs, queued);
    assert(queued[0] == v1);
    assert(first.2 =~= Seq::<u8>::empty().push(v2).push(v3));
    let second = first_key(first.1, first.2);
    assert(first.2[0] == v2);
    assert(second.2 =~= Seq::<u8>::empty().push(v3));
    let third = first_key(second.1, second.2);
    assert(second.2[0] == v3);
    assert(third.2 =~= Seq::<u8>::empty());
}

/// A poll of an empty bridge is pending and consumes nothing; once a
/// scancode that stands for a key has been pushed, the next poll yields
/// that key instead of being pending again.
pub proof fn lemma_suspend_then_resume(inputs: Seq<KeyInput>, scancode: u8)
    requires
        decoded_key(inputs, scancode) is Some,
    ensures
        first_key(inputs, Seq::<u8>::empty()) == (
            None::<DecodedKey>,
            inputs,
            Seq::<u8>::empty(),
        ),
        first_key(inputs, Seq::<u8>::empty().push(scancode)).0 == decoded_key(inputs, scancode),
        first_key(inputs, Seq::<u8>::empty().push(scancode)).2.len() == 0,
{
    let queued = Seq::<u8>::empty().push(scancode);
    assert(queued[0] == scancode);
    assert(queued.skip(1) =~= Seq::<u8>::empty());
}

/// A poll that yields a key takes at least one scancode out of the queue.
pub proof fn lemma_first_key_consumes(inputs: Seq<KeyInput>, bytes: Seq<u8>)
    ensures
        first_key(inputs, bytes).2.len() <= bytes.len(),
        first_key(inputs, bytes).0 is Some ==> first_key(inputs, bytes).2.len() < bytes.len(),
    decreases bytes.len(),
{
    if bytes.len() > 0 && decoded_key(inputs, bytes[0]) is None {
        lemma_first_key_consumes(inputs_after(inputs, bytes[0]), bytes.skip(1));
    }
}

/// What the line reader wants shown while it assembles a line.
#[derive(Clone, Copy, Debug, PartialEq, Eq)]
pub enum LineOutput {
    /// A character that joined the line, to be echoed to the user.
    Echo(char),
    /// A key without a character, to be noted in the kernel log.
    RawKey(KeyCode),
}

/// The line once `key` has been typed: a character other than the line
/// terminator joins the line, every other key leaves it as it is.
pub open spec fn line_after(line: Seq<char>, key: DecodedKey) -> Seq<char> {
    match key {
        DecodedKey::Unicode(character) => if character == '\n' {
            line
        } else {
            line.push(character)
        },
        DecodedKey::RawKey(_) => line,
    }
}

/// Whether `key` ends the line: it is the line terminator, or with it the
/// line has reached `max_len` bytes of UTF-8.
pub open spec fn line_ended_by(line: Seq<char>, key: DecodedKey, max_len: usize) -> bool {
    key == DecodedKey::Unicode('\n') || encode_utf8(line_after(line, key)).len() >= max_len
}

/// What is shown for `key`: nothing for the line terminator, the character
/// for every other character key, the key code for a key without character.
pub open spec fn output_for(key: DecodedKey) -> Seq<LineOutput> {
    match key {
        DecodedKey::Unicode(character) => if character == '\n' {
            Seq::<LineOutput>::empty()
        } else {
            seq![LineOutput::Echo(character)]
        },
        DecodedKey::RawKey(code) => seq![LineOutput::RawKey(code)],
    }
}

/// The result of typing `keys` onto `line`, one after the other, up to and
/// including the key that ends the line: whether the line was ended, the
/// line, how many keys were used, and what was shown on the way.
pub open spec fn typed(line: Seq<char>, keys: Seq<DecodedKey>, max_len: usize) -> (
    bool,
    Seq<char>,
    nat,
    Seq<LineOutput>,
)
    decreases keys.len(),
{
    if keys.len() == 0 {
        (false, line, 0, Seq::<LineOutput>::empty())
    } else if line_ended_by(line, keys[0], max_len) {
        (true, line_after(line, keys[0]), 1, output_for(keys[0]))
    } else {
        let rest = typed(line_after(line, keys[0]), keys.skip(1), max_len);
        (rest.0, rest.1, rest.2 + 1, output_for(keys[0]) + rest.3)
    }
}

/// Whether the key is one without a character, or one whose character takes
/// one byte of UTF-8, the line terminator among them.
pub open spec fn one_byte_key(key: DecodedKey) -> bool {
    match key {
        DecodedKey::Unicode(character) => character <= '\u{7f}',
        DecodedKey::RawKey(_) => true,
    }
}

/// A line of one-byte characters keeps to its bound: typed onto a line that
/// has room, keys of one byte each never make the line longer than
/// `max_len`, and when they end the line without the line terminator, the
/// line is exactly `max_len` bytes long.
pub proof fn lemma_line_keeps_to_its_bound(line: Seq<char>, keys: Seq<DecodedKey>, max_len: usize)
    requires
        is_ascii_chars(line),
        line.len() < max_len,
        forall|i: int| 0 <= i < keys.len() ==> one_byte_key(#[trigger] keys[i]),
    ensures
        is_ascii_chars(typed(line, keys, max_len).1),
        encode_utf8(typed(line, keys, max_len).1).len() == typed(line, keys, max_len).1.len(),
        typed(line, keys, max_len).1.len() <= max_len,
        typed(line, keys, max_len).2 <= keys.len(),
        typed(line, keys, max_len).0 ==> typed(line, keys, max_len).2 >= 1,
        typed(line, keys, max_len).0 ==> typed(line, keys, max_len).1.len() == max_len
            || keys[typed(line, keys, max_len).2 - 1] == DecodedKey::Unicode('\n'),
        !typed(line, keys, max_len).0 ==> typed(line, keys, max_len).1.len() < max_len,
    decreases keys.len(),
{
    is_ascii_chars_encode_utf8(line);
    if keys.len() > 0 {
        let next = line_after(line, keys[0]);
        assert(one_byte_key(keys[0]));
        assert(is_ascii_chars(next));
        is_ascii_chars_encode_utf8(next);
        if !line_ended_by(line, keys[0], max_len) {
            let rest = keys.skip(1);
            assert forall|i: int| 0 <= i < rest.len() implies one_byte_key(#[trigger] rest[i]) by {
                assert(rest[i] == keys[i + 1]);
            }
            lemma_line_keeps_to_its_bound(next, rest, max_len);
            let read = typed(next, rest, max_len);
            if read.0 {
                assert(rest[read.2 - 1] == keys[read.2 as int]);
            }
        }
    }
}

/// What is left in a keyboard bridge once a line was read on from it: what
/// the decoder was given by then, and the scancodes that still wait. The
/// reading takes keys out of the bridge until one of them ends the line or
/// the scancodes have run out.
pub open spec fn bridge_after_reading(
    line: Seq<char>,
    inputs: Seq<KeyInput>,
    bytes: Seq<u8>,
    max_len: usize,
) -> (Seq<KeyInput>, Seq<u8>)
    decreases bytes.len(),
    via bridge_after_reading_decreases
{
    let first = first_key(inputs, bytes);
    match first.0 {
        None => (first.1, first.2),
        Some(key) => if line_ended_by(line, key, max_len) {
            (first.1, first.2)
        } else {
            bridge_after_reading(line_after(line, key), first.1, first.2, max_len)
        },
    }
}

#[via_fn]
proof fn bridge_after_reading_decreases(
    line: Seq<char>,
    inputs: Seq<KeyInput>,
    bytes: Seq<u8>,
    max_len: usize,
) {
    lemma_first_key_consumes(inputs, bytes);
}

/// Assembles one line of text from decoded keys: characters join the line
/// and are echoed, keys without a character are only noted, and the line
/// ends with the line terminator or when it has reached its bound.
pub struct LineReader {
    line: String,
    max_len: usize,
}

impl LineReader {
    /// The characters typed so far.
    pub closed spec fn line(&self) -> Seq<char> {
        self.line@
    }

    /// The bound on the line's length in bytes.
    pub closed spec fn max_len(&self) -> usize {
        self.max_len
    }

    /// A reader with an empty line.
    pub fn new(max_len: usize) -> (reader: LineReader)
        ensures
            reader.line() == Seq::<char>::empty(),
            reader.max_len() == max_len,
    {
        LineReader { line: String::new(), max_len }
    }

    /// Takes one key. Returns what is to be shown for it and whether it has
    /// ended the line.
    pub fn accept(&mut self, key: DecodedKey) -> (step: (Option<LineOutput>, bool))
        ensures
            final(self).max_len() == old(self).max_len(),
            final(self).line() == line_after(old(self).line(), key),
            step.1 == line_ended_by(old(self).line(), key, old(self).max_len()),
            output_for(key) == match step.0 {
                Some(output) => seq![output],
                None => Seq::<LineOutput>::empty(),
            },
    {
        match key {
            DecodedKey::Unicode(character) => {
                if character == '\n' {
                    return (None, true);
                }
                push_char(&mut self.line, character);
                (Some(LineOutput::Echo(character)), byte_len(self.line.as_str()) >= self.max_len)
            },
            DecodedKey::RawKey(code) => {
                (Some(LineOutput::RawKey(code)), byte_len(self.line.as_str()) >= self.max_len)
            },
        }
    }

    /// The line as it stands.
    pub fn current_line(&self) -> (line: String)
        ensures
            line@ == self.line(),
    {
        self.line.clone()
    }
}

/// Reads on a line from the keyboard bridge: takes the keys that the
/// queued scancodes stand for, one after the other, until one of them ends
/// the line, and appends to `output` what is to be shown for each. If the
/// keys run out before the line has ended, the poll is pending, the wake
/// handle of the polling task is registered with the bridge, and the next
/// poll goes on where this one stopped.
pub fn get_and_print_line(
    reader: &mut LineReader,
    kb: &mut ScancodeStream,
    bridge: &mut ScancodeBridge,
    context: &Context,
    output: &mut Vec<LineOutput>,
) -> (poll: Poll<String>)
    requires
        old(bridge).wf(),
        old(bridge).initialized(),
    ensures
        final(bridge).wf(),
        final(bridge).initialized(),
        final(reader).max_len() == old(reader).max_len(),
        ({
            let keys = keys_of(old(bridge).inputs(), old(bridge).bytes());
            let read = typed(old(reader).line(), keys, old(reader).max_len());
            &&& final(reader).line() == read.1
            &&& final(output)@ == old(output)@ + read.3
            &&& (final(bridge).inputs(), final(bridge).bytes()) == bridge_after_reading(
                old(reader).line(),
                old(bridge).inputs(),
                old(bridge).bytes(),
                old(reader).max_len(),
            )
            &&& keys_of(final(bridge).inputs(), final(bridge).bytes()) == keys.skip(read.2 as int)
            &&& read.0 ==> (poll matches Poll::Ready(line) && line@ == read.1)
            &&& !read.0 ==> poll is Pending
            &&& !read.0 ==> final(bridge).bytes().len() == 0
            &&& !read.0 ==> final(bridge).registered() == Some(context.own_waker())
            &&& read.0 ==> final(bridge).registered() == old(bridge).registered()
        }),
{
    let ghost keys = keys_of(bridge.inputs(), bridge.bytes());
    let ghost read = typed(reader.line(), keys, reader.max_len());
    let ghost mut used: nat = 0;
    loop
        invariant
            bridge.wf(),
            bridge.initialized(),
            bridge.registered() == old(bridge).registered(),
            reader.max_len() == old(reader).max_len(),
            bridge_after_reading(
                reader.line(),
                bridge.inputs(),
                bridge.bytes(),
                reader.max_len(),
            ) == bridge_after_reading(
                old(reader).line(),
                old(bridge).inputs(),
                old(bridge).bytes(),
                old(reader).max_len(),
            ),
            keys == keys_of(old(bridge).inputs(), old(bridge).bytes()),
            read == typed(old(reader).line(), keys, old(reader).max_len()),
            used <= keys.len(),
            keys_of(bridge.inputs(), bridge.bytes()) == keys.skip(used as int),
            ({
                let ahead = typed(reader.line(), keys.skip(used as int), reader.max_len());
                &&& read.0 == ahead.0
                &&& read.1 == ahead.1
                &&& read.2 == used + ahead.2
                &&& old(output)@ + read.3 == output@ + ahead.3
            }),
        decreases bridge.bytes().len(),
    {
        proof {
            lemma_poll_yields_keys_in_order(bridge.inputs(), bridge.bytes());
            lemma_first_key_consumes(bridge.inputs(), bridge.bytes());
        }
        let ghost left = keys.skip(used as int);
        match kb.poll_next(bridge, context) {
            Poll::Ready(Some(key)) => {
                let ghost line = reader.line();
                let ghost shown = output@;
                let step = reader.accept(key);
                if let Some(item) = step.0 {
                    output.push(item);
                }
                proof {
                    assert(left[0] == key);
                    assert(left.skip(1) =~= keys.skip(used as int + 1));
                    assert(output@ =~= shown + output_for(key));
                    let ahead = typed(line, left, reader.max_len());
                    if !step.1 {
                        let rest = typed(reader.line(), left.skip(1), reader.max_len());
                        assert(ahead.3 == output_for(key) + rest.3);
                        assert(shown + ahead.3 =~= output@ + rest.3);
                    } else {
                        assert(shown + ahead.3 =~= output@);
                    }
                    used = used + 1;
                }
                if step.1 {
                    proof {
                        assert(old(output)@ + read.3 =~= output@);
                    }
                    return Poll::Ready(reader.current_line());
                }
            },
            Poll::Ready(None) => {
            },
            Poll::Pending => {
                proof {
                    assert(left.len() == 0);
                    assert(old(output)@ + read.3 =~= output@);
                }
                return Poll::Pending;
            },
        }
    }
}

} // verus!
