use cbos::keyboard::{get_new_line, len, pop_key, KeyBuffer, KEY_BUFFER_SIZE};
use cbos::task::keyboard::{
    add_scancode, get_and_print_line, DecodedKey, LineOutput, LineReader, ScancodeBridge,
    ScancodeOutcome, ScancodeStream, SCANCODE_QUEUE_SIZE,
};
use cbos::task::{Context, Poll, TaskIdCounter, TaskWaker};
use pc_keyboard::KeyCode;

const SHIFT_DOWN: u8 = 0x2a;
const SHIFT_UP: u8 = 0xaa;
const H_DOWN: u8 = 0x23;
const H_UP: u8 = 0xa3;
const I_DOWN: u8 = 0x17;
const I_UP: u8 = 0x97;
const A_DOWN: u8 = 0x1e;
const ENTER_DOWN: u8 = 0x1c;
const F1_DOWN: u8 = 0x3b;
const EXTENDED: u8 = 0xe0;

fn context(ids: &mut TaskIdCounter) -> Context {
    Context::from_waker(TaskWaker::new(ids.next_id()))
}

fn ready_bridge() -> (ScancodeBridge, ScancodeStream) {
    let mut bridge = ScancodeBridge::new();
    let stream = ScancodeStream::new(&mut bridge);
    (bridge, stream)
}

#[test]
fn scancodes_before_the_stream_exists_are_dropped() {
    let mut bridge = ScancodeBridge::new();
    assert!(!bridge.is_initialized());
    assert_eq!(add_scancode(&mut bridge, A_DOWN), ScancodeOutcome::NotInitialized);
    let mut stream = ScancodeStream::new(&mut bridge);
    assert!(bridge.is_initialized());
    let mut ids = TaskIdCounter::new();
    assert_eq!(stream.poll_next(&mut bridge, &context(&mut ids)), Poll::Pending);
}

#[test]
fn a_second_stream_is_refused() {
    let mut bridge = ScancodeBridge::new();
    assert!(ScancodeStream::try_new(&mut bridge).is_ok());
    assert!(ScancodeStream::try_new(&mut bridge).is_err());
    assert!(bridge.is_initialized());
}

#[test]
fn keys_come_out_in_the_order_of_their_scancodes() {
    let (mut bridge, mut stream) = ready_bridge();
    let mut ids = TaskIdCounter::new();
    let cx = context(&mut ids);
    for scancode in [H_DOWN, I_DOWN, A_DOWN] {
        assert_eq!(add_scancode(&mut bridge, scancode), ScancodeOutcome::Queued(None));
    }
    assert_eq!(stream.poll_next(&mut bridge, &cx), Poll::Ready(Some(DecodedKey::Unicode('h'))));
    assert_eq!(stream.poll_next(&mut bridge, &cx), Poll::Ready(Some(DecodedKey::Unicode('i'))));
    assert_eq!(stream.poll_next(&mut bridge, &cx), Poll::Ready(Some(DecodedKey::Unicode('a'))));
    assert_eq!(stream.poll_next(&mut bridge, &cx), Poll::Pending);
}

#[test]
fn poll_skips_scancodes_that_yield_no_key() {
    let (mut bridge, mut stream) = ready_bridge();
    let mut ids = TaskIdCounter::new();
    let cx = context(&mut ids);
    for scancode in [SHIFT_DOWN, H_DOWN, H_UP, SHIFT_UP, I_DOWN] {
        add_scancode(&mut bridge, scancode);
    }
    // The shift key yields nothing by itself, but the next poll goes on.
    assert_eq!(stream.poll_next(&mut bridge, &cx), Poll::Ready(Some(DecodedKey::Unicode('H'))));
    assert_eq!(stream.poll_next(&mut bridge, &cx), Poll::Ready(Some(DecodedKey::Unicode('i'))));
    assert_eq!(stream.poll_next(&mut bridge, &cx), Poll::Pending);
}

#[test]
fn keys_without_character_are_raw() {
    let (mut bridge, mut stream) = ready_bridge();
    let mut ids = TaskIdCounter::new();
    let cx = context(&mut ids);
    add_scancode(&mut bridge, F1_DOWN);
    assert_eq!(
        stream.poll_next(&mut bridge, &cx),
        Poll::Ready(Some(DecodedKey::RawKey(KeyCode::F1)))
    );
}

#[test]
fn multi_byte_scancodes_are_assembled() {
    let (mut bridge, mut stream) = ready_bridge();
    let mut ids = TaskIdCounter::new();
    let cx = context(&mut ids);
    add_scancode(&mut bridge, EXTENDED);
    // The prefix alone is consumed and yields nothing.
    assert_eq!(stream.poll_next(&mut bridge, &cx), Poll::Pending);
    add_scancode(&mut bridge, 0x48);
    assert_eq!(
        stream.poll_next(&mut bridge, &cx),
        Poll::Ready(Some(DecodedKey::RawKey(KeyCode::ArrowUp)))
    );
}

#[test]
fn decode_key_keeps_its_state_between_calls() {
    let mut bridge = ScancodeBridge::new();
    assert_eq!(bridge.decode_key(A_DOWN), Some(DecodedKey::Unicode('a')));
    assert_eq!(bridge.decode_key(SHIFT_DOWN), None);
    assert_eq!(bridge.decode_key(A_DOWN), Some(DecodedKey::Unicode('A')));
    assert_eq!(bridge.decode_key(SHIFT_UP), None);
    assert_eq!(bridge.decode_key(A_DOWN), Some(DecodedKey::Unicode('a')));
    assert_eq!(bridge.decode_key(0x00), None);
}

#[test]
fn empty_bridge_suspends_and_a_push_resumes() {
    let (mut bridge, mut stream) = ready_bridge();
    let mut ids = TaskIdCounter::new();
    let cx = context(&mut ids);
    assert_eq!(stream.poll_next(&mut bridge, &cx), Poll::Pending);
    // The push hands out the registered wake handle, exactly once.
    assert_eq!(add_scancode(&mut bridge, A_DOWN), ScancodeOutcome::Queued(Some(cx.waker())));
    assert_eq!(add_scancode(&mut bridge, I_DOWN), ScancodeOutcome::Queued(None));
    assert_eq!(stream.poll_next(&mut bridge, &cx), Poll::Ready(Some(DecodedKey::Unicode('a'))));
}

#[test]
fn suspending_on_one_bridge_leaves_the_other_alone() {
    let (mut keyboard, mut keys) = ready_bridge();
    let (mut other, mut other_keys) = ready_bridge();
    let mut ids = TaskIdCounter::new();
    let first = context(&mut ids);
    let second = context(&mut ids);
    assert_eq!(other_keys.poll_next(&mut other, &second), Poll::Pending);
    assert_eq!(keys.poll_next(&mut keyboard, &first), Poll::Pending);
    assert_eq!(add_scancode(&mut other, A_DOWN), ScancodeOutcome::Queued(Some(second.waker())));
    assert_eq!(add_scancode(&mut keyboard, A_DOWN), ScancodeOutcome::Queued(Some(first.waker())));
}

#[test]
fn a_full_scancode_queue_drops_the_newcomer() {
    let (mut bridge, mut stream) = ready_bridge();
    let mut ids = TaskIdCounter::new();
    let cx = context(&mut ids);
    assert_eq!(stream.poll_next(&mut bridge, &cx), Poll::Pending);
    assert_eq!(add_scancode(&mut bridge, H_DOWN), ScancodeOutcome::Queued(Some(cx.waker())));
    for _ in 1..SCANCODE_QUEUE_SIZE {
        assert_eq!(add_scancode(&mut bridge, A_DOWN), ScancodeOutcome::Queued(None));
    }
    assert_eq!(add_scancode(&mut bridge, I_DOWN), ScancodeOutcome::QueueFull);
    assert_eq!(stream.poll_next(&mut bridge, &cx), Poll::Ready(Some(DecodedKey::Unicode('h'))));
    for _ in 1..SCANCODE_QUEUE_SIZE {
        assert_eq!(
            stream.poll_next(&mut bridge, &cx),
            Poll::Ready(Some(DecodedKey::Unicode('a')))
        );
    }
    assert_eq!(stream.poll_next(&mut bridge, &cx), Poll::Pending);
}

#[test]
fn keyboard_line_assembly() {
    let (mut bridge, mut stream) = ready_bridge();
    let mut ids = TaskIdCounter::new();
    let cx = context(&mut ids);
    let mut reader = LineReader::new(80);
    let mut output = Vec::new();
    for scancode in [SHIFT_DOWN, H_DOWN, H_UP, SHIFT_UP, I_DOWN, I_UP, ENTER_DOWN] {
        add_scancode(&mut bridge, scancode);
    }
    let poll = get_and_print_line(&mut reader, &mut stream, &mut bridge, &cx, &mut output);
    assert_eq!(poll, Poll::Ready(String::from("Hi")));
    assert_eq!(output, vec![LineOutput::Echo('H'), LineOutput::Echo('i')]);
}

#[test]
fn line_reader_suspends_in_the_middle_of_a_line() {
    let (mut bridge, mut stream) = ready_bridge();
    let mut ids = TaskIdCounter::new();
    let cx = context(&mut ids);
    let mut reader = LineReader::new(80);
    let mut output = Vec::new();
    add_scancode(&mut bridge, H_DOWN);
    add_scancode(&mut bridge, F1_DOWN);
    let poll = get_and_print_line(&mut reader, &mut stream, &mut bridge, &cx, &mut output);
    assert_eq!(poll, Poll::Pending);
    assert_eq!(output, vec![LineOutput::Echo('h'), LineOutput::RawKey(KeyCode::F1)]);
    assert_eq!(reader.current_line(), "h");
    // The reader registered itself and goes on where it stopped.
    assert_eq!(add_scancode(&mut bridge, I_DOWN), ScancodeOutcome::Queued(Some(cx.waker())));
    add_scancode(&mut bridge, ENTER_DOWN);
    add_scancode(&mut bridge, A_DOWN);
    let poll = get_and_print_line(&mut reader, &mut stream, &mut bridge, &cx, &mut output);
    assert_eq!(poll, Poll::Ready(String::from("hi")));
    assert_eq!(output.len(), 3);
    // What follows the line terminator stays in the bridge.
    assert_eq!(stream.poll_next(&mut bridge, &cx), Poll::Ready(Some(DecodedKey::Unicode('a'))));
}

#[test]
fn line_ends_when_it_reaches_its_bound() {
    let (mut bridge, mut stream) = ready_bridge();
    let mut ids = TaskIdCounter::new();
    let cx = context(&mut ids);
    let mut reader = LineReader::new(2);
    let mut output = Vec::new();
    for _ in 0..5 {
        add_scancode(&mut bridge, A_DOWN);
    }
    let poll = get_and_print_line(&mut reader, &mut stream, &mut bridge, &cx, &mut output);
    assert_eq!(poll, Poll::Ready(String::from("aa")));
    assert_eq!(output, vec![LineOutput::Echo('a'), LineOutput::Echo('a')]);
    // The keys behind the bound wait for the next line.
    let mut next = LineReader::new(1);
    let poll = get_and_print_line(&mut next, &mut stream, &mut bridge, &cx, &mut output);
    assert_eq!(poll, Poll::Ready(String::from("a")));
    assert_eq!(output.len(), 3);
}

#[test]
fn line_reader_accepts_key_by_key() {
    let mut reader = LineReader::new(2);
    assert_eq!(
        reader.accept(DecodedKey::RawKey(KeyCode::F1)),
        (Some(LineOutput::RawKey(KeyCode::F1)), false)
    );
    assert_eq!(reader.accept(DecodedKey::Unicode('x')), (Some(LineOutput::Echo('x')), false));
    assert_eq!(reader.accept(DecodedKey::Unicode('y')), (Some(LineOutput::Echo('y')), true));
    assert_eq!(reader.current_line(), "xy");
    let mut short = LineReader::new(1);
    assert_eq!(short.accept(DecodedKey::Unicode('z')), (Some(LineOutput::Echo('z')), true));
    assert_eq!(short.current_line(), "z");
    // The bound counts bytes: a character of two bytes fills a bound of two.
    let mut wide = LineReader::new(2);
    assert_eq!(
        wide.accept(DecodedKey::Unicode('\u{e9}')),
        (Some(LineOutput::Echo('\u{e9}')), true)
    );
    let mut other = LineReader::new(10);
    assert_eq!(other.accept(DecodedKey::Unicode('\n')), (None, true));
    assert_eq!(other.current_line(), "");
}

#[test]
fn a_line_of_as_many_keys_as_the_bound_is_returned_in_full() {
    for bound in 1..6usize {
        let mut buffer = KeyBuffer::new();
        let mut reader = LineReader::new(bound);
        let mut output = Vec::new();
        for key in "abcdefgh".chars() {
            buffer.push_key(DecodedKey::Unicode(key));
        }
        let poll = get_new_line(&mut reader, &mut buffer, &mut output);
        assert_eq!(poll, Poll::Ready(String::from(&"abcdefgh"[..bound])));
        assert_eq!(output.len(), bound);
        assert_eq!(len(&buffer), 8 - bound);
    }
}

#[test]
fn key_buffer_is_bounded_and_first_in_first_out() {
    let mut buffer = KeyBuffer::new();
    assert_eq!(len(&buffer), 0);
    assert_eq!(pop_key(&mut buffer), None);
    for i in 0..KEY_BUFFER_SIZE {
        assert!(buffer.push_key(DecodedKey::Unicode(char::from(b'a' + (i % 26) as u8))));
    }
    assert!(!buffer.push_key(DecodedKey::Unicode('!')));
    assert_eq!(len(&buffer), KEY_BUFFER_SIZE);
    assert_eq!(pop_key(&mut buffer), Some(DecodedKey::Unicode('a')));
    assert_eq!(pop_key(&mut buffer), Some(DecodedKey::Unicode('b')));
    assert_eq!(len(&buffer), KEY_BUFFER_SIZE - 2);
}

#[test]
fn get_new_line_reads_from_the_key_buffer() {
    let mut buffer = KeyBuffer::new();
    let mut reader = LineReader::new(80);
    let mut output = Vec::new();
    buffer.push_key(DecodedKey::Unicode('l'));
    buffer.push_key(DecodedKey::Unicode('s'));
    assert_eq!(get_new_line(&mut reader, &mut buffer, &mut output), Poll::Pending);
    assert_eq!(len(&buffer), 0);
    buffer.push_key(DecodedKey::RawKey(KeyCode::ArrowUp));
    buffer.push_key(DecodedKey::Unicode('\n'));
    buffer.push_key(DecodedKey::Unicode('x'));
    assert_eq!(
        get_new_line(&mut reader, &mut buffer, &mut output),
        Poll::Ready(String::from("ls"))
    );
    assert_eq!(
        output,
        vec![LineOutput::Echo('l'), LineOutput::Echo('s'), LineOutput::RawKey(KeyCode::ArrowUp)]
    );
    assert_eq!(len(&buffer), 1);
}
