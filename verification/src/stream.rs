//! The streaming copy: read a chunk, write it, until the source is empty.
//!
//! The copy itself is a rule from what just happened to what to do next,
//! [`copy_step`]. Whoever owns the two streams runs it: reads when told to
//! read, writes when told to write, and reports each result. [`pipe`] runs it
//! between a byte slice and a list of chunks in memory.

use vstd::prelude::*;
use vstd::slice::*;
use crate::error::{Error, ErrorView};

verus! {

/// The size of the read buffer, and so the largest chunk that is ever
/// written.
pub const CHUNK_SIZE: usize = 1024;

/// What happened to the action that the copy asked for last.
#[derive(Clone, Debug, PartialEq, Eq)]
pub enum CopyEvent {
    /// Nothing yet: the copy begins.
    Started,
    /// A read put `count` bytes at the front of the buffer. Zero bytes mean
    /// that the source is at its end.
    Read { count: usize },
    /// A read failed.
    ReadFailed { cause: String },
    /// The chunk was written in full.
    Written,
    /// A write failed.
    WriteFailed { cause: String },
}

/// What the copy asks for next.
#[derive(Clone, Debug, PartialEq, Eq)]
pub enum CopyAction {
    /// Read from the source into the buffer, as much as one call gives.
    Read,
    /// Write the first `count` bytes of the buffer to the destination, all
    /// of them.
    Write { count: usize },
    /// Stop: the source is at its end and everything read was written.
    Finish,
    /// Stop with a failure. What was written stays written.
    Abort(Error),
}

/// A [`CopyEvent`] as a mathematical value.
pub enum CopyEventView {
    Started,
    Read { count: usize },
    ReadFailed { cause: Seq<char> },
    Written,
    WriteFailed { cause: Seq<char> },
}

/// A [`CopyAction`] as a mathematical value.
pub enum CopyActionView {
    Read,
    Write { count: usize },
    Finish,
    Abort(ErrorView),
}

impl View for CopyEvent {
    type V = CopyEventView;

    open spec fn view(&self) -> CopyEventView {
        match self {
            CopyEvent::Started => CopyEventView::Started,
            CopyEvent::Read { count } => CopyEventView::Read { count: *count },
            CopyEvent::ReadFailed { cause } => CopyEventView::ReadFailed { cause: cause@ },
            CopyEvent::Written => CopyEventView::Written,
            CopyEvent::WriteFailed { cause } => CopyEventView::WriteFailed { cause: cause@ },
        }
    }
}

impl View for CopyAction {
    type V = CopyActionView;

    open spec fn view(&self) -> CopyActionView {
        match self {
            CopyAction::Read => CopyActionView::Read,
            CopyAction::Write { count } => CopyActionView::Write { count: *count },
            CopyAction::Finish => CopyActionView::Finish,
            CopyAction::Abort(error) => CopyActionView::Abort(error@),
        }
    }
}

impl CopyEventView {
    /// The action that follows this event.
    pub open spec fn next(self) -> CopyActionView {
        match self {
            CopyEventView::Started => CopyActionView::Read,
            CopyEventView::Read { count } => if count == 0 {
                CopyActionView::Finish
            } else {
                CopyActionView::Write { count }
            },
            CopyEventView::ReadFailed { cause } => CopyActionView::Abort(ErrorView::Io { cause }),
            CopyEventView::Written => CopyActionView::Read,
            CopyEventView::WriteFailed { cause } => CopyActionView::Abort(ErrorView::Io { cause }),
        }
    }
}

/// Decides what the copy does after `event`.
///
/// The copy begins with a read. A read that gave bytes is followed by a
/// write of exactly those bytes, and a completed write by the next read. A
/// read that gave nothing ends the copy, and a failed read or write aborts
/// it at once.
pub fn copy_step(event: CopyEvent) -> (action: CopyAction)
    ensures
        action@ == event@.next(),
{
    match event {
        CopyEvent::Started => CopyAction::Read,
        CopyEvent::Read { count } => {
            if count == 0 {
                CopyAction::Finish
            } else {
                CopyAction::Write { count }
            }
        },
        CopyEvent::ReadFailed { cause } => CopyAction::Abort(Error::Io { cause }),
        CopyEvent::Written => CopyAction::Read,
        CopyEvent::WriteFailed { cause } => CopyAction::Abort(Error::Io { cause }),
    }
}

/// The chunks that the copy asks to write while its reads give the byte
/// strings in `reads`, one after the other, and every write succeeds.
///
/// A read that gave bytes is answered with a write of just those bytes. A
/// read that gave nothing ends the copy: what later reads would have given
/// is never asked for.
pub open spec fn writes_for(reads: Seq<Seq<u8>>) -> Seq<Seq<u8>>
    decreases reads.len(),
{
    if reads.len() == 0 {
        Seq::empty()
    } else {
        match (CopyEventView::Read { count: reads.first().len() as usize }).next() {
            CopyActionView::Write { count } => seq![reads.first().take(count as int)] + writes_for(
                reads.drop_first(),
            ),
            _ => Seq::empty(),
        }
    }
}

/// Whatever the sizes in which a source gives its bytes, the copy writes
/// what was read: chunk for chunk, up to the read that gives nothing. So
/// the bytes written, one after the other, are the bytes read.
pub proof fn lemma_copy_writes_what_was_read(reads: Seq<Seq<u8>>)
    requires
        forall|index: int|
            0 <= index < reads.len() ==> 0 < (#[trigger] reads[index]).len() <= CHUNK_SIZE,
    ensures
        writes_for(reads.push(Seq::empty())) == reads,
        writes_for(reads.push(Seq::empty())).flatten() == reads.flatten(),
    decreases reads.len(),
{
    let script = reads.push(Seq::empty());
    if reads.len() == 0 {
        assert(writes_for(script) =~= reads);
    } else {
        let rest = reads.drop_first();
        lemma_copy_writes_what_was_read(rest);
        assert(script.drop_first() =~= rest.push(Seq::empty()));
        assert(script.first().take(script.first().len() as int) =~= reads.first());
        assert(seq![reads.first()] + rest =~= reads);
    }
}

/// The number of chunks in which a stream of `len` bytes is copied.
pub open spec fn chunk_count(len: nat) -> nat {
    ((len + CHUNK_SIZE - 1) / (CHUNK_SIZE as int)) as nat
}

/// Where chunk `index` of a stream begins, whatever its length.
pub open spec fn chunk_start(index: int) -> int {
    index * CHUNK_SIZE
}

/// Where chunk `index` of a stream of `len` bytes ends.
pub open spec fn chunk_end(len: nat, index: int) -> int {
    if chunk_start(index + 1) <= len {
        chunk_start(index + 1)
    } else {
        len as int
    }
}

/// The chunks in which `stream` is copied by a source that fills the buffer
/// whenever enough bytes are left.
pub open spec fn chunks(stream: Seq<u8>) -> Seq<Seq<u8>> {
    Seq::new(
        chunk_count(stream.len()),
        |index: int| stream.subrange(chunk_start(index), chunk_end(stream.len(), index)),
    )
}

/// The bytes of each chunk in a list of written chunks.
pub open spec fn written(output: Seq<Vec<u8>>) -> Seq<Seq<u8>> {
    output.map_values(|chunk: Vec<u8>| chunk@)
}

/// What the first `count` chunks of `stream` add up to: the bytes of the
/// stream up to the end of the last of them.
proof fn lemma_chunks_prefix(stream: Seq<u8>, count: nat)
    requires
        count <= chunk_count(stream.len()),
    ensures
        chunks(stream).take(count as int).flatten() == stream.take(
            chunk_end(stream.len(), count - 1),
        ),
    decreases count,
{
    let all = chunks(stream);
    if count == 0 {
        assert(all.take(0) =~= Seq::<Seq<u8>>::empty());
        assert(stream.take(0) =~= Seq::<u8>::empty());
    } else {
        let before = (count - 1) as nat;
        lemma_chunks_prefix(stream, before);
        assert(all.take(count as int) =~= all.take(before as int).push(all[before as int]));
        all.take(before as int).lemma_flatten_push(all[before as int]);
        assert(stream.take(chunk_end(stream.len(), before - 1)) + all[before as int]
            =~= stream.take(chunk_end(stream.len(), count - 1)));
    }
}

/// The copy reproduces the stream: the chunks written, one after the other,
/// are the bytes of the stream in their order. Each chunk begins at a
/// multiple of the chunk size. Every chunk but the last is a full one, and
/// the last is not empty.
pub proof fn lemma_chunks_reproduce_stream(stream: Seq<u8>)
    ensures
        chunks(stream).flatten() == stream,
        forall|index: int|
            0 <= index < chunks(stream).len() ==> #[trigger] chunks(stream)[index]
                == stream.subrange(
                index * CHUNK_SIZE,
                index * CHUNK_SIZE + chunks(stream)[index].len(),
            ),
        forall|index: int|
            0 <= index < chunks(stream).len() - 1 ==> (#[trigger] chunks(stream)[index]).len()
                == CHUNK_SIZE,
        chunks(stream).len() > 0 ==> 0 < chunks(stream).last().len() <= CHUNK_SIZE,
{
    let all = chunks(stream);
    lemma_chunks_prefix(stream, all.len());
    assert(all.take(all.len() as int) =~= all);
    assert(stream.take(stream.len() as int) =~= stream);
}

/// A stream without bytes is copied without a single write.
pub proof fn lemma_empty_stream_has_no_chunks(stream: Seq<u8>)
    requires
        stream.len() == 0,
    ensures
        chunks(stream) == Seq::<Seq<u8>>::empty(),
{
    assert(chunks(stream) =~= Seq::<Seq<u8>>::empty());
}

/// Reads from `input`, beginning at `offset`, into the front of `buffer`: as
/// many bytes as are left, but no more than the buffer holds.
fn read_chunk(input: &[u8], offset: usize, buffer: &mut [u8; CHUNK_SIZE]) -> (count: usize)
    requires
        offset <= input@.len(),
    ensures
        count <= CHUNK_SIZE,
        offset + count <= input@.len(),
        count == CHUNK_SIZE || offset + count == input@.len(),
        final(buffer)@.take(count as int) == input@.subrange(offset as int, offset + count),
{
    let left = input.len() - offset;
    let count = if left < CHUNK_SIZE {
        left
    } else {
        CHUNK_SIZE
    };
    let mut done: usize = 0;
    while done < count
        invariant
            done <= count <= CHUNK_SIZE,
            offset + count <= input@.len() <= usize::MAX,
            buffer@.take(done as int) == input@.subrange(offset as int, offset + done),
        decreases count - done,
    {
        buffer[done] = input[offset + done];
        done += 1;
    }
    count
}

/// Copies `input` to `output` in chunks of up to [`CHUNK_SIZE`] bytes.
///
/// `output` keeps the chunks apart, in the order in which they were written:
/// each write adds one chunk behind those that are there. The bytes of the
/// chunks, one after the other, are the bytes of `input`. Nothing is written
/// for an empty `input`. A copy in memory cannot fail.
pub fn pipe(input: &[u8], output: &mut Vec<Vec<u8>>) -> (result: Result<(), Error>)
    ensures
        result is Ok,
        written(final(output)@) == written(old(output)@) + chunks(input@),
{
    let ghost before = written(output@);
    let ghost all = chunks(input@);
    let ghost len = input@.len();
    let ghost mut copied: nat = 0;
    let mut buffer = [0u8; CHUNK_SIZE];
    let mut offset: usize = 0;
    assert(len == input.len());
    let mut action = copy_step(CopyEvent::Started);
    loop
        invariant
            all == chunks(input@),
            len == input@.len() <= usize::MAX,
            copied <= all.len(),
            offset == chunk_end(len, copied - 1),
            written(output@) == before + all.take(copied as int),
            before == written(old(output)@),
            !(action@ is Abort),
            action@ is Finish ==> copied == all.len(),
            action@ matches CopyActionView::Write { count } ==> {
                &&& copied < all.len()
                &&& count == all[copied as int].len()
                &&& buffer@.take(count as int) == all[copied as int]
            },
        decreases
            len - offset,
            (if action@ is Read { 1nat } else { 0nat }),
    {
        match action {
            CopyAction::Read => {
                let count = read_chunk(input, offset, &mut buffer);
                action = copy_step(CopyEvent::Read { count });
            },
            CopyAction::Write { count } => {
                let chunk = slice_to_vec(slice_subrange(buffer.as_slice(), 0, count));
                proof {
                    assert(all.take(copied as int + 1) =~= all.take(copied as int).push(
                        all[copied as int],
                    ));
                    assert(written(output@.push(chunk)) =~= written(output@).push(chunk@));
                    copied = copied + 1;
                }
                output.push(chunk);
                offset += count;
                action = copy_step(CopyEvent::Written);
            },
            CopyAction::Finish => {
                assert(all.take(copied as int) =~= all);
                return Ok(());
            },
            CopyAction::Abort(error) => {
                return Err(error);
            },
        }
    }
}

} // verus!
