//! One direction of the relay: a pump that moves what it reads from one
//! stream to the other, chunk by chunk, until its source ends or a read or a
//! write fails.
//!
//! A connection runs two pumps, one per direction. They share nothing: each
//! decision below depends on the pump's own last read or write alone.

use vstd::prelude::*;
use vstd::slice::slice_subrange;

verus! {

/// The size of a pump's buffer: the most that one read brings.
pub const CHUNK_LEN: usize = 1024;

/// Why a pump stopped.
#[derive(Clone, Copy, Debug, PartialEq, Eq, Structural)]
pub enum PumpEnd {
    /// The source reached its end: a read brought no bytes.
    Eof,
    /// A read from the source failed.
    ReadFailed,
    /// A write to the destination failed.
    WriteFailed,
}

/// The outcome of one read into the pump's buffer.
#[derive(Clone, Copy, Debug, PartialEq, Eq, Structural)]
pub enum ReadOutcome {
    /// The read filled this many bytes at the front of the buffer.
    Filled(usize),
    /// The read failed.
    Failed,
}

/// What a pump does after a read.
#[derive(Clone, Copy, Debug, PartialEq, Eq)]
pub enum PumpStep<'a> {
    /// Write exactly these bytes to the destination, then read again.
    Forward(&'a [u8]),
    /// Stop.
    Stop(PumpEnd),
}

/// A pump step, with its bytes by view.
pub enum PumpStepView {
    Forward(Seq<u8>),
    Stop(PumpEnd),
}

impl<'a> View for PumpStep<'a> {
    type V = PumpStepView;

    open spec fn view(&self) -> PumpStepView {
        match self {
            PumpStep::Forward(bytes) => PumpStepView::Forward(bytes@),
            PumpStep::Stop(end) => PumpStepView::Stop(*end),
        }
    }
}

/// What follows a read into `buf`: the bytes that the read filled are
/// forwarded as they are; a read of no bytes is the end of the source; a
/// failed read, or a count beyond the buffer, which no read gives, stops the
/// pump as a failed read.
pub open spec fn spec_after_read(buf: Seq<u8>, outcome: ReadOutcome) -> PumpStepView {
    match outcome {
        ReadOutcome::Filled(n) => if n == 0 {
            PumpStepView::Stop(PumpEnd::Eof)
        } else if n <= buf.len() {
            PumpStepView::Forward(buf.subrange(0, n as int))
        } else {
            PumpStepView::Stop(PumpEnd::ReadFailed)
        },
        ReadOutcome::Failed => PumpStepView::Stop(PumpEnd::ReadFailed),
    }
}

/// What follows a write: the next read, or the end of the pump.
pub open spec fn spec_after_write(written: bool) -> Option<PumpEnd> {
    if written {
        None
    } else {
        Some(PumpEnd::WriteFailed)
    }
}

/// Decides what follows a read into `buf`.
pub fn after_read<'a>(buf: &'a [u8], outcome: ReadOutcome) -> (step: PumpStep<'a>)
    ensures
        step@ == spec_after_read(buf@, outcome),
{
    match outcome {
        ReadOutcome::Filled(n) => {
            if n == 0 {
                PumpStep::Stop(PumpEnd::Eof)
            } else if n <= buf.len() {
                PumpStep::Forward(slice_subrange(buf, 0, n))
            } else {
                PumpStep::Stop(PumpEnd::ReadFailed)
            }
        },
        ReadOutcome::Failed => PumpStep::Stop(PumpEnd::ReadFailed),
    }
}

/// Decides what follows a write: `None` to read again, or why the pump
/// stops.
pub fn after_write(written: bool) -> (end: Option<PumpEnd>)
    ensures
        end == spec_after_write(written),
{
    if written {
        None
    } else {
        Some(PumpEnd::WriteFailed)
    }
}

/// One turn of a pump as its streams saw it: the buffer after the read, the
/// read's outcome, and whether the write that followed, if one did, went
/// through.
pub struct Turn {
    pub buf: Seq<u8>,
    pub outcome: ReadOutcome,
    pub written: bool,
}

impl Turn {
    /// The bytes that this turn hands to the destination.
    pub open spec fn forwarded(self) -> Seq<u8> {
        match spec_after_read(self.buf, self.outcome) {
            PumpStepView::Forward(bytes) => bytes,
            PumpStepView::Stop(_) => Seq::empty(),
        }
    }

    /// Why the pump stops in this turn, if it does.
    pub open spec fn end(self) -> Option<PumpEnd> {
        match spec_after_read(self.buf, self.outcome) {
            PumpStepView::Forward(_) => spec_after_write(self.written),
            PumpStepView::Stop(end) => Some(end),
        }
    }

    /// The turn in which a read brought `chunk` and the write went through.
    pub open spec fn carrying(chunk: Seq<u8>) -> Turn {
        Turn { buf: chunk, outcome: ReadOutcome::Filled(chunk.len() as usize), written: true }
    }

    /// The turn in which the read found the source at its end.
    pub open spec fn at_eof(buf: Seq<u8>) -> Turn {
        Turn { buf, outcome: ReadOutcome::Filled(0), written: true }
    }
}

/// Everything that a pump hands to its destination over `turns`, in order:
/// the forwarded bytes of each turn up to and including the one in which it
/// stops. What a failed write took of its chunk is not known, so the chunk
/// counts as handed over.
pub open spec fn forwarded(turns: Seq<Turn>) -> Seq<u8>
    decreases turns.len(),
{
    if turns.len() == 0 {
        Seq::empty()
    } else if turns[0].end().is_some() {
        turns[0].forwarded()
    } else {
        turns[0].forwarded() + forwarded(turns.drop_first())
    }
}

/// Why a pump has stopped within `turns`, if it has.
pub open spec fn ended(turns: Seq<Turn>) -> Option<PumpEnd>
    decreases turns.len(),
{
    if turns.len() == 0 {
        None
    } else if turns[0].end().is_some() {
        turns[0].end()
    } else {
        ended(turns.drop_first())
    }
}

/// The chunks of `chunks` laid end to end.
pub open spec fn concat(chunks: Seq<Seq<u8>>) -> Seq<u8>
    decreases chunks.len(),
{
    if chunks.len() == 0 {
        Seq::empty()
    } else {
        chunks[0] + concat(chunks.drop_first())
    }
}

/// The turns of a pump whose reads bring `chunks` one after the other, whose
/// writes all go through, and whose source then ends.
pub open spec fn turns_of(chunks: Seq<Seq<u8>>) -> Seq<Turn> {
    Seq::new(chunks.len(), |i: int| Turn::carrying(chunks[i])).push(Turn::at_eof(Seq::empty()))
}

/// Whether every chunk is one that a single read can bring: not empty, and
/// no longer than the buffer.
pub open spec fn readable(chunks: Seq<Seq<u8>>) -> bool {
    forall|i: int| 0 <= i < chunks.len() ==> 0 < #[trigger] chunks[i].len() <= CHUNK_LEN
}

/// The turns behind the first chunk are the turns of the chunks behind it.
proof fn lemma_turns_of_rest(chunks: Seq<Seq<u8>>)
    requires
        chunks.len() > 0,
    ensures
        turns_of(chunks).drop_first() =~= turns_of(chunks.drop_first()),
        turns_of(chunks)[0] == Turn::carrying(chunks[0]),
{
}

/// A relay loses nothing and changes nothing: however the source's bytes
/// fall into reads, as long as every write goes through, the destination is
/// handed exactly those bytes, in their order, and the pump then stops at
/// the end of the source without an error.
pub proof fn relay_is_lossless(chunks: Seq<Seq<u8>>)
    requires
        readable(chunks),
    ensures
        forwarded(turns_of(chunks)) == concat(chunks),
        ended(turns_of(chunks)) == Some(PumpEnd::Eof),
    decreases chunks.len(),
{
    let turns = turns_of(chunks);
    if chunks.len() == 0 {
        assert(turns[0] == Turn::at_eof(Seq::empty()));
        assert(turns[0].forwarded() =~= Seq::<u8>::empty());
    } else {
        lemma_turns_of_rest(chunks);
        let first = chunks[0];
        assert(0 < first.len() <= CHUNK_LEN);
        assert(first.subrange(0, first.len() as int) =~= first);
        assert(turns[0].forwarded() == first);
        assert(turns[0].end().is_none());
        let rest = chunks.drop_first();
        assert(readable(rest)) by {
            assert forall|i: int| 0 <= i < rest.len() implies 0 < #[trigger] rest[i].len()
                <= CHUNK_LEN by {
                assert(rest[i] == chunks[i + 1]);
            }
        }
        relay_is_lossless(rest);
    }
}

/// What a pump has handed over stays handed over: the bytes forwarded over
/// the first `k` turns open the bytes forwarded over all of them, whatever
/// the reads and writes came to.
pub proof fn forwarded_only_grows(turns: Seq<Turn>, k: int)
    requires
        0 <= k <= turns.len(),
    ensures
        forwarded(turns.take(k)).is_prefix_of(forwarded(turns)),
    decreases turns.len(),
{
    if k == 0 {
        assert(turns.take(0).len() == 0);
    } else {
        let head = turns.take(k);
        assert(head[0] == turns[0]);
        if turns[0].end().is_none() {
            assert(head.drop_first() =~= turns.drop_first().take(k - 1));
            forwarded_only_grows(turns.drop_first(), k - 1);
            let a = turns[0].forwarded();
            let x = forwarded(head.drop_first());
            let y = forwarded(turns.drop_first());
            assert((a + x).is_prefix_of(a + y)) by {
                assert((a + y).subrange(0, (a + x).len() as int) =~= a + x);
            }
        } else {
            assert(forwarded(head) == forwarded(turns));
        }
    }
}

/// A pump that has stopped forwards no more: turns that follow the one in
/// which it stopped add nothing and change no reason.
pub proof fn stopped_pump_stays_stopped(turns: Seq<Turn>, later: Seq<Turn>)
    requires
        ended(turns).is_some(),
    ensures
        forwarded(turns + later) == forwarded(turns),
        ended(turns + later) == ended(turns),
    decreases turns.len(),
{
    let all = turns + later;
    assert(turns.len() > 0);
    assert(all[0] == turns[0]);
    if turns[0].end().is_none() {
        assert(all.drop_first() =~= turns.drop_first() + later);
        stopped_pump_stays_stopped(turns.drop_first(), later);
    }
}

/// The end of the source stops a pump without an error, whatever its buffer
/// holds, and nothing is forwarded in that turn.
pub proof fn end_of_source_stops_cleanly(buf: Seq<u8>)
    ensures
        spec_after_read(buf, ReadOutcome::Filled(0)) == PumpStepView::Stop(PumpEnd::Eof),
        Turn::at_eof(buf).forwarded() == Seq::<u8>::empty(),
        Turn::at_eof(buf).end() == Some(PumpEnd::Eof),
{
}

} // verus!
