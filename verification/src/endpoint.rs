//! A pair of connected duplex endpoints for connection mocking.
//!
//! Each direction has its own bounded byte channel, and one channel's read
//! half is cross-wired to the other channel's write half, so that writing
//! into one endpoint delivers to its peer's read side.  By choosing the
//! buffer size per direction one can simulate backpressure: probes report
//! "would block" on writes when the buffer is full and on reads when it is
//! empty.
//!
//! After closing an endpoint, further write and flush probes on it report
//! `NotConnected`, while reads on the peer keep draining the buffer and
//! then report end-of-stream.  Closing fires the wake handle of a peer
//! suspended on a read, so it never stays parked forever.

use vstd::prelude::*;
use crate::channel::BoundedByteChannel;
use crate::channel::FlushOutcome;
use crate::channel::ReadOutcome;
use crate::channel::WriteOutcome;
use crate::halves::ReadHalf;
use crate::halves::WriteHalf;

verus! {

/// One side of a mocked duplex connection: the write half of one channel
/// and the read half of the other.
pub struct Endpoint {
    writer: WriteHalf,
    reader: ReadHalf,
}

impl Endpoint {
    /// The fixed capacity of the buffer this endpoint writes to.
    pub closed spec fn write_capacity(&self) -> nat {
        self.writer.capacity()
    }

    /// The fixed capacity of the buffer this endpoint reads from.
    pub closed spec fn read_capacity(&self) -> nat {
        self.reader.capacity()
    }

    /// Creates a pair of connected endpoints, choosing the buffer size per
    /// direction: `a_buf` bytes for what the first endpoint writes, `b_buf`
    /// bytes for what the second one writes.  The halves are cross-wired:
    /// what one endpoint writes, the other reads.
    pub fn pair(a_buf: usize, b_buf: usize) -> (endpoints: (Endpoint, Endpoint))
        ensures
            endpoints.0.write_capacity() == a_buf,
            endpoints.0.read_capacity() == b_buf,
            endpoints.1.write_capacity() == b_buf,
            endpoints.1.read_capacity() == a_buf,
    {
        let ab = BoundedByteChannel::new(a_buf);
        let ba = BoundedByteChannel::new(b_buf);
        let (ab_reader, ab_writer) = ab.split();
        let (ba_reader, ba_writer) = ba.split();
        (
            Endpoint { writer: ab_writer, reader: ba_reader },
            Endpoint { writer: ba_writer, reader: ab_reader },
        )
    }

    /// A read probe on what the peer wrote; see [`ReadHalf::poll_read`].
    pub fn poll_read(&mut self, max: usize, waker: std::task::Waker) -> (r: ReadOutcome)
        ensures
            final(self).read_capacity() == old(self).read_capacity(),
            final(self).write_capacity() == old(self).write_capacity(),
            r matches ReadOutcome::Read(v) ==> v@.len() <= max && (max > 0 ==> v@.len() > 0)
                && v@.len() <= old(self).read_capacity(),
    {
        self.reader.poll_read(max, waker)
    }

    /// A write probe towards the peer; see [`WriteHalf::poll_write`].
    /// A zero-capacity buffer never admits a byte: such a write can only
    /// report "would block" or `NotConnected`.
    pub fn poll_write(&mut self, bytes: &[u8], waker: std::task::Waker) -> (r: WriteOutcome)
        ensures
            final(self).read_capacity() == old(self).read_capacity(),
            final(self).write_capacity() == old(self).write_capacity(),
            r matches WriteOutcome::Wrote(n) ==> n <= bytes@.len() && (bytes@.len() > 0 ==> n
                > 0) && n <= old(self).write_capacity(),
            old(self).write_capacity() == 0 ==> !(r matches WriteOutcome::Wrote(_)),
    {
        self.writer.poll_write(bytes, waker)
    }

    /// A flush probe; see [`WriteHalf::poll_flush`].  It never blocks.
    pub fn poll_flush(&mut self) -> (r: FlushOutcome)
        ensures
            final(self).read_capacity() == old(self).read_capacity(),
            final(self).write_capacity() == old(self).write_capacity(),
    {
        self.writer.poll_flush()
    }

    /// Closes this endpoint's write side.  Closing always completes
    /// immediately, is idempotent, keeps the bytes the peer has not yet
    /// drained, and wakes a peer suspended on a read.
    pub fn poll_close(&mut self)
        ensures
            final(self).read_capacity() == old(self).read_capacity(),
            final(self).write_capacity() == old(self).write_capacity(),
    {
        self.writer.close()
    }
}
} // verus!
