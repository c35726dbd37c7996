use std::io::{Cursor, Error as IoError, ErrorKind, Read, Result as IoResult, Write};

use tldr::error::Error;
use tldr::stream::{copy_step, CopyAction, CopyEvent, CHUNK_SIZE};

/// Runs the copy between two streams: does what each action asks for and
/// reports how it went.
fn run<R: Read, W: Write>(input: &mut R, output: &mut W) -> Result<(), Error> {
    let mut buffer = [0u8; CHUNK_SIZE];
    let mut action = copy_step(CopyEvent::Started);
    loop {
        let event = match action {
            CopyAction::Read => match input.read(&mut buffer) {
                Ok(count) => CopyEvent::Read { count },
                Err(err) => CopyEvent::ReadFailed { cause: err.to_string() },
            },
            CopyAction::Write { count } => match output.write_all(&buffer[0..count]) {
                Ok(()) => CopyEvent::Written,
                Err(err) => CopyEvent::WriteFailed { cause: err.to_string() },
            },
            CopyAction::Finish => return Ok(()),
            CopyAction::Abort(error) => return Err(error),
        };
        action = copy_step(event);
    }
}

/// A source that gives at most `step` bytes per read, and fails once
/// `fail_after` bytes have been given.
struct Trickle {
    bytes: Vec<u8>,
    given: usize,
    step: usize,
    fail_after: Option<usize>,
}

impl Read for Trickle {
    fn read(&mut self, buffer: &mut [u8]) -> IoResult<usize> {
        if let Some(limit) = self.fail_after {
            if self.given >= limit {
                return Err(IoError::new(ErrorKind::ConnectionReset, "connection reset"));
            }
        }
        let left = self.bytes.len() - self.given;
        let count = left.min(self.step).min(buffer.len());
        buffer[..count].copy_from_slice(&self.bytes[self.given..self.given + count]);
        self.given += count;
        Ok(count)
    }
}

/// A destination that keeps each write apart, and fails every write from
/// number `fail_at` on.
struct Recorder {
    writes: Vec<Vec<u8>>,
    fail_at: Option<usize>,
}

impl Write for Recorder {
    fn write(&mut self, chunk: &[u8]) -> IoResult<usize> {
        if self.fail_at == Some(self.writes.len()) {
            return Err(IoError::new(ErrorKind::BrokenPipe, "broken pipe"));
        }
        self.writes.push(chunk.to_vec());
        Ok(chunk.len())
    }

    fn flush(&mut self) -> IoResult<()> {
        Ok(())
    }
}

fn sample(len: usize) -> Vec<u8> {
    let mut bytes = Vec::with_capacity(len);
    for i in 0..len {
        bytes.push((i * 13 + i / 256) as u8);
    }
    bytes
}

fn recorder() -> Recorder {
    Recorder { writes: Vec::new(), fail_at: None }
}

fn lengths(writes: &[Vec<u8>]) -> Vec<usize> {
    let mut out = Vec::new();
    for chunk in writes {
        out.push(chunk.len());
    }
    out
}

#[test]
fn run_copies_a_stream_that_fills_the_buffer() {
    let bytes = sample(2500);
    let mut output = recorder();
    assert_eq!(run(&mut Cursor::new(bytes.clone()), &mut output), Ok(()));
    assert_eq!(lengths(&output.writes), vec![1024, 1024, 452]);
    assert_eq!(output.writes.concat(), bytes);
}

#[test]
fn run_copies_a_stream_that_comes_in_small_pieces() {
    let bytes = sample(250);
    let mut input = Trickle { bytes: bytes.clone(), given: 0, step: 100, fail_after: None };
    let mut output = recorder();
    assert_eq!(run(&mut input, &mut output), Ok(()));
    assert_eq!(lengths(&output.writes), vec![100, 100, 50]);
    assert_eq!(output.writes.concat(), bytes);
}

#[test]
fn run_writes_nothing_for_an_empty_stream() {
    let mut output = recorder();
    assert_eq!(run(&mut Cursor::new(Vec::<u8>::new()), &mut output), Ok(()));
    assert!(output.writes.is_empty());
}

#[test]
fn run_copies_into_a_plain_byte_vector() {
    let bytes = sample(3000);
    let mut output: Vec<u8> = Vec::new();
    assert_eq!(run(&mut Cursor::new(bytes.clone()), &mut output), Ok(()));
    assert_eq!(output, bytes);
}

#[test]
fn run_stops_at_a_failed_read_and_keeps_what_was_written() {
    let bytes = sample(3000);
    let mut input = Trickle { bytes: bytes.clone(), given: 0, step: 1024, fail_after: Some(2048) };
    let mut output = recorder();
    assert_eq!(
        run(&mut input, &mut output),
        Err(Error::Io { cause: "connection reset".to_string() })
    );
    assert_eq!(lengths(&output.writes), vec![1024, 1024]);
    assert_eq!(output.writes.concat(), bytes[..2048].to_vec());
}

#[test]
fn run_stops_at_a_failed_write_and_keeps_what_was_written() {
    let bytes = sample(3000);
    let mut output = Recorder { writes: Vec::new(), fail_at: Some(1) };
    assert_eq!(
        run(&mut Cursor::new(bytes.clone()), &mut output),
        Err(Error::Io { cause: "broken pipe".to_string() })
    );
    assert_eq!(output.writes, vec![bytes[..1024].to_vec()]);
}

#[test]
fn run_reports_a_failure_before_the_first_byte() {
    let mut input = Trickle { bytes: sample(10), given: 0, step: 10, fail_after: Some(0) };
    let mut output = recorder();
    let outcome = run(&mut input, &mut output);
    assert_eq!(outcome, Err(Error::Io { cause: "connection reset".to_string() }));
    assert!(output.writes.is_empty());
    match outcome {
        Err(error) => assert_eq!(error.message(), "Couldn't read stream"),
        Ok(()) => unreachable!(),
    }
}
