//! The laws of the channel, stated over its model.
//!
//! Every probe's contract pins its outcome and the next model down to
//! functions of the model ([`after_write`], [`after_read`], [`after_close`]
//! and their outcome companions), so each law below holds of the executable
//! operations on every well-formed channel, and — through the cross-wired
//! pair — of every endpoint.

use vstd::prelude::*;
use crate::channel::ChannelModel;
use crate::channel::ReadOutcome;
use crate::channel::WriteOutcome;
use crate::channel::FlushOutcome;
use crate::channel::after_close;
use crate::channel::after_read;
use crate::channel::after_write;
use crate::channel::can_write;
use crate::channel::flush_outcome_spec;
use crate::channel::free_space;
use crate::channel::model_wf;
use crate::channel::read_outcome_ok;
use crate::channel::write_outcome_spec;

verus! {

/// Round trip: on an open, empty channel of capacity at least one, writing
/// a non-empty byte sequence shorter than the capacity accepts it whole,
/// and a read with enough room on the peer's side returns exactly those
/// bytes, in order, with matching length, leaving the buffer empty.
pub proof fn lemma_write_then_read_round_trip(m: ChannelModel, bytes: Seq<u8>, max: int)
    requires
        model_wf(m),
        !m.closed,
        m.contents.len() == 0,
        1 <= m.capacity <= usize::MAX,
        1 <= bytes.len() < m.capacity,
        bytes.len() <= max,
    ensures
        write_outcome_spec(m, bytes) == WriteOutcome::Wrote(bytes.len() as usize),
        after_write(m, bytes).contents == bytes,
        forall|r: ReadOutcome|
            read_outcome_ok(after_write(m, bytes), max, r) ==> (r matches ReadOutcome::Read(v)
                && v@ == bytes),
        after_read(after_write(m, bytes), max).contents.len() == 0,
{
    let m1 = after_write(m, bytes);
    assert(m1.contents =~= bytes);
    assert(m1.contents.skip(bytes.len() as int) =~= Seq::<u8>::empty());
    assert forall|r: ReadOutcome| read_outcome_ok(m1, max, r) implies (r matches
        ReadOutcome::Read(v) && v@ == bytes) by {
        if r matches ReadOutcome::Read(v) {
            assert(m1.contents.take(bytes.len() as int) =~= bytes);
        }
    }
}

/// Backpressure: a write never pushes the buffered count past the
/// capacity; on a full channel it reports "would block", and a write
/// offering at least the remaining free space fills the buffer exactly.
pub proof fn lemma_backpressure(m: ChannelModel, bytes: Seq<u8>)
    requires
        model_wf(m),
    ensures
        model_wf(after_write(m, bytes)),
        after_write(m, bytes).contents.len() <= m.capacity,
        !m.closed && m.contents.len() == m.capacity ==> write_outcome_spec(m, bytes)
            == WriteOutcome::WouldBlock,
        can_write(m) && bytes.len() >= free_space(m) ==> after_write(m, bytes).contents.len()
            == m.capacity,
{
}

/// Starvation-freedom, waiting side: reading an empty, open channel can
/// only report "would block", and it parks the reader's wake handle.
pub proof fn lemma_read_empty_blocks(m: ChannelModel, max: int)
    requires
        model_wf(m),
        !m.closed,
        m.contents.len() == 0,
    ensures
        forall|r: ReadOutcome| read_outcome_ok(m, max, r) ==> r is WouldBlock,
        after_read(m, max).reader_waiting,
{
}

/// Starvation-freedom, waking side: once a write accepts any byte, a
/// previously parked reader's wake handle is no longer parked — the write
/// fired it.
pub proof fn lemma_write_wakes_reader(m: ChannelModel, bytes: Seq<u8>)
    requires
        model_wf(m),
        m.reader_waiting,
        can_write(m),
    ensures
        !after_write(m, bytes).reader_waiting,
{
}

/// Close-then-drain: closing keeps the buffered bytes.  A read with enough
/// room afterwards returns all of them, and the read after that reports
/// end-of-stream.
pub proof fn lemma_close_then_drain(m: ChannelModel, max: int, later_max: int)
    requires
        model_wf(m),
        m.contents.len() > 0,
        m.contents.len() <= max,
    ensures
        after_close(m).contents == m.contents,
        forall|r: ReadOutcome|
            read_outcome_ok(after_close(m), max, r) ==> (r matches ReadOutcome::Read(v) && v@
                == m.contents),
        after_read(after_close(m), max).contents.len() == 0,
        forall|r: ReadOutcome|
            read_outcome_ok(after_read(after_close(m), max), later_max, r) ==> r is EndOfStream,
{
    let mc = after_close(m);
    assert(mc.contents.skip(m.contents.len() as int) =~= Seq::<u8>::empty());
    assert forall|r: ReadOutcome| read_outcome_ok(mc, max, r) implies (r matches
        ReadOutcome::Read(v) && v@ == m.contents) by {
        if r matches ReadOutcome::Read(v) {
            assert(mc.contents.take(m.contents.len() as int) =~= m.contents);
        }
    }
}

/// Close-without-drain: closing with nothing buffered makes an immediate
/// subsequent read report end-of-stream.
pub proof fn lemma_close_without_drain(m: ChannelModel, max: int)
    requires
        model_wf(m),
        m.contents.len() == 0,
    ensures
        forall|r: ReadOutcome| read_outcome_ok(after_close(m), max, r) ==> r is EndOfStream,
{
}

/// Write-after-close: on a closed channel every write probe fails with
/// `NotConnected` and changes nothing, and so does a flush probe.  Closing
/// is idempotent and touches no buffered byte — and the two directions of
/// an endpoint pair are distinct channels, so bytes buffered on the other
/// direction are untouched by construction.
pub proof fn lemma_write_after_close(m: ChannelModel, bytes: Seq<u8>)
    requires
        model_wf(m),
    ensures
        write_outcome_spec(after_close(m), bytes) == WriteOutcome::NotConnected,
        after_write(after_close(m), bytes) == after_close(m),
        flush_outcome_spec(after_close(m)) == FlushOutcome::NotConnected,
        after_close(m).contents == m.contents,
        after_close(after_close(m)) == after_close(m),
{
}

/// Closing fires both parked wake handles: afterwards neither side's
/// handle stays parked, so closing (from an explicit close or from
/// releasing an endpoint) never leaves the peer suspended forever.
pub proof fn lemma_close_wakes(m: ChannelModel)
    requires
        model_wf(m),
    ensures
        after_close(m).closed,
        !after_close(m).reader_waiting,
        !after_close(m).writer_waiting,
{
}

} // verus!
