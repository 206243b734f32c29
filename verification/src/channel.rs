//! The bounded single-producer/single-consumer byte channel: a fixed-capacity
//! circular buffer with an explicit close operation and one parked wake
//! handle per direction.

use vstd::prelude::*;

verus! {

/// Mathematical model of one bounded byte channel: the fixed capacity, the
/// bytes currently buffered (oldest first), whether the write side has been
/// closed, and whether each side has parked a wake handle.
#[verifier::ext_equal]
pub ghost struct ChannelModel {
    pub capacity: nat,
    pub contents: Seq<u8>,
    pub closed: bool,
    pub reader_waiting: bool,
    pub writer_waiting: bool,
}

/// A channel model never buffers more than its capacity.
pub open spec fn model_wf(m: ChannelModel) -> bool {
    m.contents.len() <= m.capacity
}

/// Outcome of a write probe.
#[derive(Debug, PartialEq, Eq)]
pub enum WriteOutcome {
    /// This many bytes were accepted (a short write is possible).
    Wrote(usize),
    /// The buffer is full (or has capacity zero); the caller's wake handle
    /// was parked and will be fired when space frees or the channel closes.
    WouldBlock,
    /// The channel was already closed for writing.
    NotConnected,
}

/// Outcome of a read probe.
#[derive(Debug, PartialEq, Eq)]
pub enum ReadOutcome {
    /// The bytes drained from the buffer, oldest first.
    Read(Vec<u8>),
    /// The buffer is empty and the channel is open; the caller's wake handle
    /// was parked and will be fired when data arrives or the channel closes.
    WouldBlock,
    /// The buffer is empty and the channel is closed: end of stream.
    EndOfStream,
}

/// Outcome of a flush probe.  Flushing has no buffered staging area, so it
/// succeeds immediately unless the channel is closed for writing.
#[derive(Debug, PartialEq, Eq)]
pub enum FlushOutcome {
    Flushed,
    NotConnected,
}

/// Free space left in the buffer.
pub open spec fn free_space(m: ChannelModel) -> int {
    m.capacity - m.contents.len()
}

/// A write can accept at least one byte: the channel is open and not full.
pub open spec fn can_write(m: ChannelModel) -> bool {
    !m.closed && m.contents.len() < m.capacity
}

/// A read can return at least one byte.
pub open spec fn can_read(m: ChannelModel) -> bool {
    m.contents.len() > 0
}

/// How many bytes a write of `len` bytes accepts: the requested length,
/// capped at the free space.
pub open spec fn write_amount(m: ChannelModel, len: int) -> int {
    if len <= free_space(m) {
        len
    } else {
        free_space(m)
    }
}

/// How many bytes a read into `max` bytes of room drains: the room,
/// capped at what is buffered.
pub open spec fn read_amount(m: ChannelModel, max: int) -> int {
    if max <= m.contents.len() {
        max
    } else {
        m.contents.len() as int
    }
}

/// The model after a write probe offering `bytes`: a closed channel is
/// unchanged, a full one parks the writer's wake handle, and otherwise the
/// accepted prefix is appended and the parked reader (if any) is woken.
pub open spec fn after_write(m: ChannelModel, bytes: Seq<u8>) -> ChannelModel {
    if m.closed {
        m
    } else if !can_write(m) {
        ChannelModel { writer_waiting: true, ..m }
    } else {
        ChannelModel {
            contents: m.contents + bytes.take(write_amount(m, bytes.len() as int)),
            reader_waiting: false,
            ..m
        }
    }
}

/// The outcome a write probe offering `bytes` reports.
pub open spec fn write_outcome_spec(m: ChannelModel, bytes: Seq<u8>) -> WriteOutcome {
    if m.closed {
        WriteOutcome::NotConnected
    } else if !can_write(m) {
        WriteOutcome::WouldBlock
    } else {
        WriteOutcome::Wrote(write_amount(m, bytes.len() as int) as usize)
    }
}

/// The model after a read probe with `max` bytes of room: a non-empty buffer
/// loses its drained prefix and the parked writer (if any) is woken; an empty
/// closed channel is unchanged; an empty open one parks the reader's wake
/// handle.
pub open spec fn after_read(m: ChannelModel, max: int) -> ChannelModel {
    if can_read(m) {
        ChannelModel {
            contents: m.contents.skip(read_amount(m, max)),
            writer_waiting: false,
            ..m
        }
    } else if m.closed {
        m
    } else {
        ChannelModel { reader_waiting: true, ..m }
    }
}

/// Relates a read probe's outcome to the model it ran against.  The outcome
/// is determined by the model up to the identity of the returned vector.
pub open spec fn read_outcome_ok(m: ChannelModel, max: int, r: ReadOutcome) -> bool {
    match r {
        ReadOutcome::Read(v) => can_read(m) && v@ == m.contents.take(read_amount(m, max)),
        ReadOutcome::WouldBlock => !can_read(m) && !m.closed,
        ReadOutcome::EndOfStream => !can_read(m) && m.closed,
    }
}

/// The model after closing the write side: idempotent, keeps the buffered
/// bytes, and fires both parked wake handles so that no side stays
/// suspended forever.
pub open spec fn after_close(m: ChannelModel) -> ChannelModel {
    ChannelModel { closed: true, reader_waiting: false, writer_waiting: false, ..m }
}

/// The outcome a flush probe reports.
pub open spec fn flush_outcome_spec(m: ChannelModel) -> FlushOutcome {
    if m.closed {
        FlushOutcome::NotConnected
    } else {
        FlushOutcome::Flushed
    }
}

/// Physical index of the logical byte `i` counted from the read cursor
/// `head`, in a circular buffer of `cap` slots.  Meaningful for
/// `0 <= i <= cap` and `0 <= head < cap`.
spec fn slot(head: int, cap: int, i: int) -> int {
    if head + i < cap {
        head + i
    } else {
        head + i - cap
    }
}

/// A fixed-capacity circular byte buffer with one logical producer and one
/// logical consumer.  Writing and reading never block: an operation that
/// cannot make progress reports so and parks the caller-supplied wake
/// handle, to be fired by the complementary operation or by `close`.
pub struct BoundedByteChannel {
    /// Backing storage; its length is the capacity and never changes.
    storage: Vec<u8>,
    /// Read cursor: index of the oldest buffered byte.
    head: usize,
    /// Number of buffered bytes.
    count: usize,
    /// Set once by `close`; never reset.
    closed: bool,
    /// Wake handle parked by a reader that found the buffer empty.
    read_waker: Option<std::task::Waker>,
    /// Wake handle parked by a writer that found the buffer full.
    write_waker: Option<std::task::Waker>,
}

impl View for BoundedByteChannel {
    type V = ChannelModel;

    closed spec fn view(&self) -> ChannelModel {
        ChannelModel {
            capacity: self.storage@.len(),
            contents: Seq::new(
                self.count as nat,
                |i: int| self.storage@[slot(self.head as int, self.storage@.len() as int, i)],
            ),
            closed: self.closed,
            reader_waiting: self.read_waker is Some,
            writer_waiting: self.write_waker is Some,
        }
    }
}

impl BoundedByteChannel {
    /// The cursors stay inside the storage and the byte count inside the
    /// capacity.
    pub closed spec fn wf(&self) -> bool {
        &&& self.count <= self.storage@.len()
        &&& if self.storage@.len() == 0 {
            self.head == 0
        } else {
            self.head < self.storage@.len()
        }
    }

    pub proof fn lemma_wf_model(&self)
        requires
            self.wf(),
        ensures
            model_wf(self@),
    {
    }

    /// Creates an open, empty channel of the given fixed capacity.
    pub fn new(capacity: usize) -> (c: BoundedByteChannel)
        ensures
            c.wf(),
            c@ == (ChannelModel {
                capacity: capacity as nat,
                contents: Seq::<u8>::empty(),
                closed: false,
                reader_waiting: false,
                writer_waiting: false,
            }),
    {
        let mut storage: Vec<u8> = Vec::new();
        let mut i: usize = 0;
        while i < capacity
            invariant
                i <= capacity,
                storage@.len() == i,
            decreases capacity - i,
        {
            storage.push(0);
            i = i + 1;
        }
        let c = BoundedByteChannel {
            storage,
            head: 0,
            count: 0,
            closed: false,
            read_waker: None,
            write_waker: None,
        };
        proof {
            assert(c@.contents =~= Seq::<u8>::empty());
            assert(c@ =~= (ChannelModel {
                capacity: capacity as nat,
                contents: Seq::<u8>::empty(),
                closed: false,
                reader_waiting: false,
                writer_waiting: false,
            }));
        }
        c
    }

    /// Closes the write side.  Idempotent: sets the closed flag, never
    /// discards buffered bytes, and fires both parked wake handles, so a
    /// suspended reader wakes to observe end-of-stream and a suspended
    /// writer wakes to observe `NotConnected`.  Never blocks.
    pub fn close(&mut self)
        requires
            old(self).wf(),
        ensures
            final(self).wf(),
            final(self)@ == after_close(old(self)@),
    {
        self.closed = true;
        match self.read_waker.take() {
            Some(w) => crate::wake::wake_now(w),
            None => {},
        }
        match self.write_waker.take() {
            Some(w) => crate::wake::wake_now(w),
            None => {},
        }
        proof {
            assert(self@ =~= after_close(old(self)@));
        }
    }

    /// A write probe.  On a closed channel it fails with `NotConnected`; on
    /// a full (or zero-capacity) channel it parks `waker` as the pending
    /// write handle and reports `WouldBlock`; otherwise it appends as much
    /// of `bytes` as fits, fires the pending read handle since data became
    /// available, and reports how many bytes it accepted.
    pub fn try_write(&mut self, bytes: &[u8], waker: std::task::Waker) -> (r: WriteOutcome)
        requires
            old(self).wf(),
        ensures
            final(self).wf(),
            final(self)@ == after_write(old(self)@, bytes@),
            r == write_outcome_spec(old(self)@, bytes@),
            r matches WriteOutcome::Wrote(n) ==> n <= bytes@.len() && (bytes@.len() > 0 ==> n
                > 0),
    {
        if self.closed {
            proof {
                assert(self@ =~= after_write(old(self)@, bytes@));
            }
            return WriteOutcome::NotConnected;
        }
        let cap = self.storage.len();
        if self.count >= cap {
            self.write_waker = Some(waker);
            proof {
                assert(self@ =~= after_write(old(self)@, bytes@));
            }
            return WriteOutcome::WouldBlock;
        }
        let free = cap - self.count;
        let n = if bytes.len() < free {
            bytes.len()
        } else {
            free
        };
        let ghost m0 = self@;
        let ghost head0 = self.head as int;
        let ghost count0 = self.count as int;
        let ghost rw0 = self.read_waker;
        let ghost ww0 = self.write_waker;
        let mut pos = if self.head >= free {
            self.head - free
        } else {
            self.head + self.count
        };
        assert(pos == slot(head0, cap as int, count0));
        let mut j: usize = 0;
        while j < n
            invariant
                j <= n,
                n <= bytes@.len(),
                count0 + n <= cap,
                0 < cap,
                0 <= head0 < cap,
                self.storage@.len() == cap,
                self.head == head0,
                self.count == count0,
                self.closed == false,
                self.read_waker == rw0,
                self.write_waker == ww0,
                pos == slot(head0, cap as int, count0 + j),
                forall|i: int|
                    0 <= i < j ==> self.storage@[slot(head0, cap as int, count0 + i)] == bytes@[i],
                forall|k: int|
                    0 <= k < count0 ==> self.storage@[slot(head0, cap as int, k)] == m0.contents[k],
            decreases n - j,
        {
            let b = bytes[j];
            self.storage.set(pos, b);
            pos = if pos + 1 == cap {
                0
            } else {
                pos + 1
            };
            j = j + 1;
        }
        self.count = self.count + n;
        match self.read_waker.take() {
            Some(w) => crate::wake::wake_now(w),
            None => {},
        }
        proof {
            assert(self@.contents =~= m0.contents + bytes@.take(n as int));
            assert(self@ =~= after_write(old(self)@, bytes@));
        }
        WriteOutcome::Wrote(n)
    }

    /// A read probe with room for `max` bytes.  On a non-empty buffer it
    /// drains up to `max` bytes, oldest first, and fires the pending write
    /// handle since space freed; on an empty closed channel it reports
    /// end-of-stream; on an empty open channel it parks `waker` as the
    /// pending read handle and reports `WouldBlock`.
    pub fn try_read(&mut self, max: usize, waker: std::task::Waker) -> (r: ReadOutcome)
        requires
            old(self).wf(),
        ensures
            final(self).wf(),
            final(self)@ == after_read(old(self)@, max as int),
            read_outcome_ok(old(self)@, max as int, r),
    {
        if self.count == 0 {
            if self.closed {
                proof {
                    assert(self@ =~= after_read(old(self)@, max as int));
                }
                return ReadOutcome::EndOfStream;
            }
            self.read_waker = Some(waker);
            proof {
                assert(self@ =~= after_read(old(self)@, max as int));
            }
            return ReadOutcome::WouldBlock;
        }
        let cap = self.storage.len();
        let n = if max < self.count {
            max
        } else {
            self.count
        };
        let ghost m0 = self@;
        let ghost head0 = self.head as int;
        let ghost count0 = self.count as int;
        let ghost sto0 = self.storage@;
        let ghost c0 = self.closed;
        let ghost rw0 = self.read_waker;
        let ghost ww0 = self.write_waker;
        let mut out: Vec<u8> = Vec::new();
        let mut j: usize = 0;
        while j < n
            invariant
                j <= n,
                n <= count0,
                count0 <= cap,
                0 < cap,
                0 <= head0 < cap,
                self.storage@ == sto0,
                self.storage@.len() == cap,
                self.head == head0,
                self.count == count0,
                self.closed == c0,
                self.read_waker == rw0,
                self.write_waker == ww0,
                m0.contents.len() == count0,
                forall|k: int|
                    0 <= k < count0 ==> m0.contents[k] == sto0[slot(head0, cap as int, k)],
                out@.len() == j,
                forall|i: int| 0 <= i < j ==> out@[i] == m0.contents[i],
            decreases n - j,
        {
            let idx = if self.head >= cap - j {
                self.head - (cap - j)
            } else {
                self.head + j
            };
            assert(idx == slot(head0, cap as int, j as int));
            let b = self.storage[idx];
            assert(b == m0.contents[j as int]);
            out.push(b);
            j = j + 1;
        }
        self.head = if self.head >= cap - n {
            self.head - (cap - n)
        } else {
            self.head + n
        };
        self.count = self.count - n;
        match self.write_waker.take() {
            Some(w) => crate::wake::wake_now(w),
            None => {},
        }
        proof {
            assert(self.head == slot(head0, cap as int, n as int));
            assert(self@.contents =~= m0.contents.skip(n as int)) by {
                assert forall|i: int| 0 <= i < count0 - n implies self@.contents[i] == m0.contents[
                    i + n
                ] by {
                    assert(slot(self.head as int, cap as int, i) == slot(
                        head0,
                        cap as int,
                        i + n,
                    ));
                }
            }
            assert(self@ =~= after_read(old(self)@, max as int));
            assert(out@ =~= m0.contents.take(n as int));
        }
        ReadOutcome::Read(out)
    }

    /// Flushing succeeds immediately while the channel is open for writing
    /// and fails with `NotConnected` once it is closed, mirroring the write
    /// contract.
    pub fn flush(&self) -> (r: FlushOutcome)
        ensures
            r == flush_outcome_spec(self@),
    {
        if self.closed {
            FlushOutcome::NotConnected
        } else {
            FlushOutcome::Flushed
        }
    }
}

} // verus!
