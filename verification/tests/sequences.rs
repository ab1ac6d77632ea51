//! Dispatch where the terminal honours control sequences.

use term_command::{
    conclude, Command, ControlSequence, ErrorKind, ExecutableCommand, QueueableCommand, Sink,
    SinkState,
};

/// Moves the cursor to a column of its row.
struct MoveToColumn(u16);

impl Command for MoveToColumn {
    // The model of the sequence is read by the verifier and never run.
    fn ansi_text(&self) -> ControlSequence {
        unreachable!()
    }

    fn ansi_code(&self) -> String {
        format!("\x1B[{}G", self.0)
    }

    fn execute_winapi(&self) -> Result<(), ErrorKind> {
        panic!("the direct call must not be made where sequences are honoured")
    }
}

/// Prints a text as it stands.
struct Print(&'static str);

impl Command for Print {
    fn ansi_text(&self) -> ControlSequence {
        unreachable!()
    }

    fn ansi_code(&self) -> String {
        self.0.to_string()
    }

    fn execute_winapi(&self) -> Result<(), ErrorKind> {
        panic!("the direct call must not be made where sequences are honoured")
    }
}

/// A sink that holds bytes back until it is flushed or holds more than `room`.
struct Buffered {
    sent: Vec<u8>,
    held: Vec<u8>,
    room: usize,
    writes: u32,
    flushes: u32,
}

impl Buffered {
    fn with_room(room: usize) -> Buffered {
        Buffered { sent: Vec::new(), held: Vec::new(), room, writes: 0, flushes: 0 }
    }
}

impl Sink for Buffered {
    // The model of the sink is read by the verifier and never run.
    fn state(&self) -> SinkState {
        unreachable!()
    }

    fn write_all(&mut self, bytes: &[u8]) -> Result<(), ErrorKind> {
        self.writes += 1;
        self.held.extend_from_slice(bytes);
        if self.held.len() > self.room {
            self.sent.append(&mut self.held);
        }
        Ok(())
    }

    fn flush(&mut self) -> Result<(), ErrorKind> {
        self.flushes += 1;
        self.sent.append(&mut self.held);
        Ok(())
    }
}

fn queue_two(
    sink: &mut Buffered,
    first: MoveToColumn,
    second: MoveToColumn,
) -> Result<(), ErrorKind> {
    sink.queue(first, true)?.queue(second, true)?;
    sink.flush()
}

fn execute_two(sink: &mut Vec<u8>, first: Print, second: Print) -> Result<(), ErrorKind> {
    sink.execute(first, true)?.execute(second, true)?;
    Ok(())
}

#[test]
fn rendering_twice_gives_the_same_text() {
    let command = MoveToColumn(7);
    let once = command.ansi_code();
    let again = command.ansi_code();
    assert_eq!(once, again);
    assert_eq!(once, "\x1B[7G");
}

#[test]
fn two_queued_moves_reach_an_empty_buffer_in_order() {
    let mut sink: Vec<u8> = Vec::new();
    let first = MoveToColumn(5).ansi_code();
    let second = MoveToColumn(10).ansi_code();

    assert!(sink.queue(MoveToColumn(5), true).is_ok());
    assert!(sink.queue(MoveToColumn(10), true).is_ok());
    assert!(sink.flush().is_ok());

    let mut expected = first.into_bytes();
    expected.extend_from_slice(second.as_bytes());
    assert_eq!(sink, expected);
    assert_eq!(sink, b"\x1B[5G\x1B[10G".to_vec());
}

#[test]
fn queue_leaves_the_sequence_pending() {
    let mut sink = Buffered::with_room(64);
    assert!(sink.queue(MoveToColumn(5), true).is_ok());
    assert_eq!(sink.sent, Vec::<u8>::new());
    assert_eq!(sink.held, b"\x1B[5G".to_vec());
    assert_eq!(sink.writes, 1);
    assert_eq!(sink.flushes, 0);

    assert!(sink.flush().is_ok());
    assert_eq!(sink.sent, b"\x1B[5G".to_vec());
    assert_eq!(sink.held, Vec::<u8>::new());
}

#[test]
fn queue_into_a_full_buffer_is_transmitted_by_the_sink() {
    let mut sink = Buffered::with_room(6);
    assert!(sink.queue(MoveToColumn(5), true).is_ok());
    assert_eq!(sink.sent, Vec::<u8>::new());
    assert!(sink.queue(MoveToColumn(10), true).is_ok());
    assert_eq!(sink.sent, b"\x1B[5G\x1B[10G".to_vec());
    assert_eq!(sink.held, Vec::<u8>::new());
    assert_eq!(sink.flushes, 0);
}

#[test]
fn chained_queues_keep_their_order() {
    let mut sink = Buffered::with_room(64);
    assert!(queue_two(&mut sink, MoveToColumn(5), MoveToColumn(10)).is_ok());
    assert_eq!(sink.sent, b"\x1B[5G\x1B[10G".to_vec());
    assert_eq!(sink.held, Vec::<u8>::new());
    assert_eq!(sink.writes, 2);
    assert_eq!(sink.flushes, 1);
}

#[test]
fn queue_returns_the_sink_it_was_given() {
    let mut sink = Buffered::with_room(64);
    match sink.queue(MoveToColumn(3), true) {
        Ok(same) => {
            assert_eq!(same.held, b"\x1B[3G".to_vec());
            same.held.push(b'!');
        }
        Err(_) => panic!("the sink takes every write"),
    }
    assert_eq!(sink.held, b"\x1B[3G!".to_vec());
}

#[test]
fn execute_transmits_before_it_returns() {
    let mut sink = Buffered::with_room(64);
    assert!(sink.execute(MoveToColumn(12), true).is_ok());
    assert_eq!(sink.sent, b"\x1B[12G".to_vec());
    assert_eq!(sink.held, Vec::<u8>::new());
    assert_eq!(sink.writes, 1);
    assert_eq!(sink.flushes, 1);
}

#[test]
fn execute_transmits_what_was_pending_first() {
    let mut sink = Buffered::with_room(64);
    assert!(sink.queue(Print("ab"), true).is_ok());
    assert_eq!(sink.held, b"ab".to_vec());
    assert!(sink.execute(Print("cd"), true).is_ok());
    assert_eq!(sink.sent, b"abcd".to_vec());
    assert_eq!(sink.held, Vec::<u8>::new());
}

#[test]
fn chained_executes_append_to_a_vector() {
    let mut sink: Vec<u8> = b"> ".to_vec();
    assert!(execute_two(&mut sink, Print("sum:\n"), Print("1 + 1 = 2")).is_ok());
    assert_eq!(sink, b"> sum:\n1 + 1 = 2".to_vec());
}

#[test]
fn a_sequence_travels_as_utf8() {
    let mut sink: Vec<u8> = Vec::new();
    assert!(sink.execute(Print("a\u{e9}\u{2502}\u{1f600}"), true).is_ok());
    assert_eq!(
        sink,
        vec![0x61, 0xC3, 0xA9, 0xE2, 0x94, 0x82, 0xF0, 0x9F, 0x98, 0x80]
    );
}

#[test]
fn an_empty_sequence_adds_nothing() {
    let mut sink = Buffered::with_room(64);
    assert!(sink.queue(Print("x"), true).is_ok());
    assert!(sink.queue(Print(""), true).is_ok());
    assert_eq!(sink.held, b"x".to_vec());
    assert_eq!(sink.writes, 2);
    assert!(sink.execute(Print(""), true).is_ok());
    assert_eq!(sink.sent, b"x".to_vec());
    assert_eq!(sink.flushes, 1);
}

#[test]
fn a_vector_transmits_at_once() {
    let mut sink: Vec<u8> = Vec::new();
    assert!(sink.write_all(b"abc").is_ok());
    assert_eq!(sink, b"abc".to_vec());
    assert!(sink.flush().is_ok());
    assert!(sink.write_all(b"").is_ok());
    assert!(sink.write_all(b"de").is_ok());
    assert_eq!(sink, b"abcde".to_vec());
}

#[test]
fn conclude_hands_the_sink_back_after_a_success() {
    let mut sink: Vec<u8> = b"kept".to_vec();
    match conclude(&mut sink, Ok(())) {
        Ok(same) => same.push(b'!'),
        Err(_) => panic!("a success is no failure"),
    }
    assert_eq!(sink, b"kept!".to_vec());
}
