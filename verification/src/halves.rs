//! Splitting one channel into an exclusively owned read half and write
//! half.
//!
//! The two halves share ownership of the channel state and live until both
//! are released.  Each half forwards its operations to the shared channel
//! under a lock whose invariant is the channel's well-formedness, so every
//! probe runs against a well-formed channel and leaves one behind.  Because
//! the peer half can run between two probes, a half's contract states what
//! holds of the outcome for every well-formed channel state; the exact
//! per-state behaviour is the channel's own contract.

use vstd::prelude::*;
use vstd::rwlock::RwLock;
use vstd::rwlock::RwLockPredicate;
use std::sync::Arc;
use crate::channel::BoundedByteChannel;
use crate::channel::FlushOutcome;
use crate::channel::ReadOutcome;
use crate::channel::WriteOutcome;

verus! {

/// The lock invariant of a shared channel: well-formedness, and the fixed
/// capacity chosen at creation, which never changes afterwards.
pub struct ChannelPred {
    pub cap: nat,
}

impl RwLockPredicate<BoundedByteChannel> for ChannelPred {
    open spec fn inv(self, v: BoundedByteChannel) -> bool {
        v.wf() && v@.capacity == self.cap
    }
}

/// Relies on `std::sync::Arc::clone`: the clone is another handle to the
/// same allocation, so it carries the same value.
#[verifier::external_body]
fn clone_shared(
    shared: &Arc<RwLock<BoundedByteChannel, ChannelPred>>,
) -> (r: Arc<RwLock<BoundedByteChannel, ChannelPred>>)
    ensures
        r == *shared,
{
    shared.clone()
}

/// The consuming side of a split channel: it alone can read.
pub struct ReadHalf {
    shared: Arc<RwLock<BoundedByteChannel, ChannelPred>>,
}

/// The producing side of a split channel: it alone can write, flush and
/// close.
pub struct WriteHalf {
    shared: Arc<RwLock<BoundedByteChannel, ChannelPred>>,
}

impl ReadHalf {
    /// The fixed capacity of the channel this half drains.
    pub closed spec fn capacity(&self) -> nat {
        self.shared.pred().cap
    }
}

impl WriteHalf {
    /// The fixed capacity of the channel this half feeds.
    pub closed spec fn capacity(&self) -> nat {
        self.shared.pred().cap
    }
}

impl BoundedByteChannel {
    /// Partitions the exclusive read and write capability of one channel.
    /// Both halves share ownership of the same underlying state, whose
    /// capacity never changes after creation.
    pub fn split(self) -> (halves: (ReadHalf, WriteHalf))
        requires
            self.wf(),
        ensures
            halves.0.capacity() == self@.capacity,
            halves.1.capacity() == self@.capacity,
    {
        let ghost cap = self@.capacity;
        let lock = RwLock::new(self, Ghost(ChannelPred { cap }));
        let shared = Arc::new(lock);
        let other = clone_shared(&shared);
        (ReadHalf { shared }, WriteHalf { shared: other })
    }
}

impl ReadHalf {
    /// A read probe on the shared channel; see
    /// [`BoundedByteChannel::try_read`].  Whatever the shared state was, a
    /// returned chunk never exceeds the room offered, and room for at least
    /// one byte is never answered with an empty chunk.
    pub fn poll_read(&mut self, max: usize, waker: std::task::Waker) -> (r: ReadOutcome)
        ensures
            final(self).capacity() == old(self).capacity(),
            r matches ReadOutcome::Read(v) ==> v@.len() <= max && (max > 0 ==> v@.len() > 0)
                && v@.len() <= old(self).capacity(),
    {
        let (mut chan, handle) = self.shared.acquire_write();
        proof {
            chan.lemma_wf_model();
        }
        let r = chan.try_read(max, waker);
        handle.release_write(chan);
        r
    }
}

impl WriteHalf {
    /// A write probe on the shared channel; see
    /// [`BoundedByteChannel::try_write`].  Whatever the shared state was,
    /// an accepted count never exceeds what was offered, and a non-empty
    /// offer is never answered with an accepted count of zero.
    pub fn poll_write(&mut self, bytes: &[u8], waker: std::task::Waker) -> (r: WriteOutcome)
        ensures
            final(self).capacity() == old(self).capacity(),
            r matches WriteOutcome::Wrote(n) ==> n <= bytes@.len() && (bytes@.len() > 0 ==> n
                > 0) && n <= old(self).capacity(),
            old(self).capacity() == 0 ==> !(r matches WriteOutcome::Wrote(_)),
    {
        let (mut chan, handle) = self.shared.acquire_write();
        proof {
            chan.lemma_wf_model();
        }
        let r = chan.try_write(bytes, waker);
        handle.release_write(chan);
        r
    }

    /// A flush probe on the shared channel; see
    /// [`BoundedByteChannel::flush`].  It never blocks.
    pub fn poll_flush(&mut self) -> (r: FlushOutcome)
        ensures
            final(self).capacity() == old(self).capacity(),
    {
        let read_handle = self.shared.acquire_read();
        let r = read_handle.borrow().flush();
        read_handle.release_read();
        r
    }

    /// Closes the shared channel; see [`BoundedByteChannel::close`].  It
    /// never blocks and is idempotent.
    pub fn close(&mut self)
        ensures
            final(self).capacity() == old(self).capacity(),
    {
        let (mut chan, handle) = self.shared.acquire_write();
        chan.close();
        handle.release_write(chan);
    }
}

} // verus!
