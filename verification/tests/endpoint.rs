use duplex_mock::channel::BoundedByteChannel;
use duplex_mock::channel::FlushOutcome;
use duplex_mock::channel::ReadOutcome;
use duplex_mock::channel::WriteOutcome;
use duplex_mock::endpoint::Endpoint;
use std::sync::Arc;
use std::sync::Mutex;
use std::task::Wake;
use std::task::Waker;

struct Flag {
    fired: Mutex<bool>,
}

impl Wake for Flag {
    fn wake(self: Arc<Self>) {
        *self.fired.lock().unwrap() = true;
    }
}

fn flag_waker() -> (Waker, Arc<Flag>) {
    let flag = Arc::new(Flag { fired: Mutex::new(false) });
    (Waker::from(flag.clone()), flag)
}

fn fired(flag: &Arc<Flag>) -> bool {
    *flag.fired.lock().unwrap()
}

fn noop() -> Waker {
    flag_waker().0
}

#[test]
fn basic_usage() {
    let (mut server, mut client) = Endpoint::pair(10, 10);

    let data = vec![1, 2, 3];
    let n = match server.poll_write(&data, noop()) {
        WriteOutcome::Wrote(n) => n,
        other => panic!("write: {:?}", other),
    };
    assert_eq!(n, 3);

    match client.poll_read(3, noop()) {
        ReadOutcome::Read(read) => assert_eq!(read, vec![1, 2, 3]),
        other => panic!("read: {:?}", other),
    }
}

#[test]
fn close_write() {
    let (mut server, _client) = Endpoint::pair(10, 10);

    server.poll_close();

    let buf = vec![1, 2, 3];
    let res = server.poll_write(&buf, noop());
    match res {
        WriteOutcome::NotConnected => {}
        _ => panic!("poll_write should return error: {:?}", res),
    }
}

#[test]
fn close_read() {
    let (mut server, mut client) = Endpoint::pair(10, 10);

    server.poll_close();

    assert_eq!(client.poll_read(10, noop()), ReadOutcome::EndOfStream);
}

#[test]
fn close_read_remaining() {
    let (mut server, mut client) = Endpoint::pair(10, 10);

    let data = vec![1, 2, 3];
    assert_eq!(server.poll_write(&data, noop()), WriteOutcome::Wrote(3), "write");

    server.poll_close();

    match client.poll_read(3, noop()) {
        ReadOutcome::Read(read) => assert_eq!(read, vec![1, 2, 3]),
        other => panic!("read: {:?}", other),
    }

    assert_eq!(client.poll_read(3, noop()), ReadOutcome::EndOfStream);
}

#[test]
fn close_wake_pending() {
    let (mut server, mut client) = Endpoint::pair(10, 10);

    let (waker, flag) = flag_waker();
    assert_eq!(client.poll_read(10, waker), ReadOutcome::WouldBlock);
    assert!(!fired(&flag));

    server.poll_close();

    assert!(fired(&flag), "close must wake the pending reader");
    assert_eq!(client.poll_read(10, noop()), ReadOutcome::EndOfStream);
}

#[test]
fn scenario_pair_ten() {
    let (mut a, mut b) = Endpoint::pair(10, 10);

    assert_eq!(a.poll_write(&[1, 2, 3], noop()), WriteOutcome::Wrote(3));
    match b.poll_read(3, noop()) {
        ReadOutcome::Read(read) => {
            assert_eq!(read.len(), 3);
            assert_eq!(read, vec![1, 2, 3]);
        }
        other => panic!("read: {:?}", other),
    }

    a.poll_close();
    assert_eq!(b.poll_read(3, noop()), ReadOutcome::EndOfStream);
}

#[test]
fn zero_capacity_write_blocks() {
    let (mut a, _b) = Endpoint::pair(0, 0);

    assert_eq!(a.poll_write(&[1], noop()), WriteOutcome::WouldBlock);
}

#[test]
fn backpressure_short_write() {
    let (mut a, _b) = Endpoint::pair(4, 4);

    assert_eq!(a.poll_write(&[1, 2, 3, 4, 5, 6], noop()), WriteOutcome::Wrote(4));
    assert_eq!(a.poll_write(&[7], noop()), WriteOutcome::WouldBlock);
}

#[test]
fn write_wakes_pending_reader() {
    let (mut server, mut client) = Endpoint::pair(10, 10);

    let (waker, flag) = flag_waker();
    assert_eq!(client.poll_read(1, waker), ReadOutcome::WouldBlock);
    assert!(!fired(&flag));

    assert_eq!(server.poll_write(&[9], noop()), WriteOutcome::Wrote(1));

    assert!(fired(&flag), "a write must wake the pending reader");
    assert_eq!(client.poll_read(1, noop()), ReadOutcome::Read(vec![9]));
}

#[test]
fn read_wakes_pending_writer() {
    let (mut server, mut client) = Endpoint::pair(1, 1);

    assert_eq!(server.poll_write(&[1, 2], noop()), WriteOutcome::Wrote(1));

    let (waker, flag) = flag_waker();
    assert_eq!(server.poll_write(&[3], waker), WriteOutcome::WouldBlock);
    assert!(!fired(&flag));

    assert_eq!(client.poll_read(1, noop()), ReadOutcome::Read(vec![1]));

    assert!(fired(&flag), "a read must wake the pending writer");
    assert_eq!(server.poll_write(&[3], noop()), WriteOutcome::Wrote(1));
}

#[test]
fn close_wakes_pending_writer() {
    let (mut a, _b) = Endpoint::pair(0, 0);

    let (waker, flag) = flag_waker();
    assert_eq!(a.poll_write(&[1], waker), WriteOutcome::WouldBlock);
    assert!(!fired(&flag));

    a.poll_close();

    assert!(fired(&flag), "close must wake the pending writer");
    assert_eq!(a.poll_write(&[1], noop()), WriteOutcome::NotConnected);
}

#[test]
fn flush_then_close() {
    let (mut a, _b) = Endpoint::pair(10, 10);

    assert_eq!(a.poll_flush(), FlushOutcome::Flushed);
    a.poll_close();
    assert_eq!(a.poll_flush(), FlushOutcome::NotConnected);
}

#[test]
fn other_direction_unaffected_by_close() {
    let (mut a, mut b) = Endpoint::pair(10, 10);

    assert_eq!(b.poll_write(&[5, 6], noop()), WriteOutcome::Wrote(2));

    a.poll_close();
    assert_eq!(a.poll_write(&[1], noop()), WriteOutcome::NotConnected);

    assert_eq!(a.poll_read(2, noop()), ReadOutcome::Read(vec![5, 6]));
}

#[test]
fn asymmetric_capacities() {
    let (mut a, mut b) = Endpoint::pair(2, 0);

    assert_eq!(a.poll_write(&[1, 2, 3], noop()), WriteOutcome::Wrote(2));
    assert_eq!(b.poll_write(&[9], noop()), WriteOutcome::WouldBlock);
    assert_eq!(b.poll_read(2, noop()), ReadOutcome::Read(vec![1, 2]));
    assert_eq!(a.poll_read(1, noop()), ReadOutcome::WouldBlock);
}

#[test]
fn split_halves_roundtrip() {
    let c = BoundedByteChannel::new(4);
    let (mut reader, mut writer) = c.split();

    assert_eq!(writer.poll_write(&[1, 2], noop()), WriteOutcome::Wrote(2));
    assert_eq!(writer.poll_flush(), FlushOutcome::Flushed);
    assert_eq!(reader.poll_read(4, noop()), ReadOutcome::Read(vec![1, 2]));

    writer.close();
    assert_eq!(reader.poll_read(4, noop()), ReadOutcome::EndOfStream);
}

#[test]
fn channel_ring_wraps_around() {
    let mut c = BoundedByteChannel::new(3);

    assert_eq!(c.try_write(&[1, 2], noop()), WriteOutcome::Wrote(2));
    assert_eq!(c.try_read(1, noop()), ReadOutcome::Read(vec![1]));
    assert_eq!(c.try_write(&[3, 4], noop()), WriteOutcome::Wrote(2));
    assert_eq!(c.try_read(3, noop()), ReadOutcome::Read(vec![2, 3, 4]));
    assert_eq!(c.try_read(1, noop()), ReadOutcome::WouldBlock);
}

#[test]
fn channel_read_zero_room() {
    let mut c = BoundedByteChannel::new(2);

    assert_eq!(c.try_write(&[8], noop()), WriteOutcome::Wrote(1));
    assert_eq!(c.try_read(0, noop()), ReadOutcome::Read(vec![]));
    assert_eq!(c.try_read(2, noop()), ReadOutcome::Read(vec![8]));
}

#[test]
fn channel_close_is_idempotent() {
    let mut c = BoundedByteChannel::new(2);

    assert_eq!(c.try_write(&[1], noop()), WriteOutcome::Wrote(1));
    c.close();
    c.close();
    assert_eq!(c.try_read(2, noop()), ReadOutcome::Read(vec![1]));
    assert_eq!(c.try_read(2, noop()), ReadOutcome::EndOfStream);
    assert_eq!(c.flush(), FlushOutcome::NotConnected);
}
