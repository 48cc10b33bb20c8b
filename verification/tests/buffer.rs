use fswtch::buffer::{Buffer, DEFAULT_BLOCKSIZE, ZERO_CHUNK};
use fswtch::handle::Created;
use fswtch::status::{Status, SwitchError, GENERR};
use std::cell::RefCell;
use std::collections::VecDeque;

/// A bounded byte queue that stands for the core's buffer.
struct Fifo {
    bytes: RefCell<VecDeque<u8>>,
    max: usize,
}

impl Fifo {
    fn new(max: usize) -> Fifo {
        Fifo { bytes: RefCell::new(VecDeque::new()), max }
    }

    fn write(&self, data: &[u8]) -> usize {
        let mut bytes = self.bytes.borrow_mut();
        if bytes.len() + data.len() > self.max {
            return 0;
        }
        bytes.extend(data.iter().copied());
        bytes.len()
    }

    fn peek(&self, n: usize) -> Vec<u8> {
        self.bytes.borrow().iter().copied().take(n).collect()
    }

    fn toss(&self, n: usize) {
        let mut bytes = self.bytes.borrow_mut();
        let n = n.min(bytes.len());
        bytes.drain(..n);
    }

    fn read(&self, n: usize) -> Vec<u8> {
        let head = self.peek(n);
        self.toss(head.len());
        head
    }

    fn inuse(&self) -> usize {
        self.bytes.borrow().len()
    }
}

fn create(capacity: usize) -> (Buffer, Fifo) {
    let buf = Buffer::new(capacity, |blocksize, start, max| {
        assert_eq!((blocksize, start, max), (DEFAULT_BLOCKSIZE, DEFAULT_BLOCKSIZE, capacity));
        Created { status: 0, raw: 0x1000 }
    })
    .expect("create buffer");
    (buf, Fifo::new(capacity))
}

#[test]
fn roundtrip_write_read() {
    let (buf, fifo) = create(1024);
    assert!(buf.is_empty(|_| fifo.inuse()));
    buf.write(b"hello world", |_, d| fifo.write(d)).expect("write");
    assert_eq!(buf.inuse(|_| fifo.inuse()), 11);

    let mut out = [0u8; 5];
    let n = buf.read(&mut out, |_, n| fifo.read(n));
    assert_eq!(n, 5);
    assert_eq!(&out, b"hello");
    assert_eq!(buf.inuse(|_| fifo.inuse()), 6);
}

#[test]
fn peek_does_not_consume() {
    let (buf, fifo) = create(1024);
    buf.write(b"abcdef", |_, d| fifo.write(d)).expect("write");

    let mut out = [0u8; 3];
    let n = buf.peek(&mut out, |_, n| fifo.peek(n));
    assert_eq!(n, 3);
    assert_eq!(&out, b"abc");
    assert_eq!(buf.inuse(|_| fifo.inuse()), 6, "peek must not remove data");
}

#[test]
fn toss_discards_head() {
    let (buf, fifo) = create(1024);
    buf.write(b"abcdef", |_, d| fifo.write(d)).expect("write");
    buf.toss(2, |_, n| fifo.toss(n));
    assert_eq!(buf.inuse(|_| fifo.inuse()), 4);

    let mut out = [0u8; 4];
    assert_eq!(buf.read(&mut out, |_, n| fifo.read(n)), 4);
    assert_eq!(&out, b"cdef");
}

#[test]
fn zero_clears_buffer() {
    let (buf, fifo) = create(1024);
    buf.write(b"data", |_, d| fifo.write(d)).expect("write");
    buf.zero(|_| fifo.toss(usize::MAX));
    assert!(buf.is_empty(|_| fifo.inuse()));
}

#[test]
fn zero_fill_writes_zeros() {
    let (buf, fifo) = create(1024);
    buf.zero_fill(4, (), |d, _, n| (d, fifo.write(&vec![0; n]))).0.expect("zero fill");
    assert_eq!(buf.inuse(|_| fifo.inuse()), 4);

    let mut out = [0xffu8; 4];
    buf.read(&mut out, |_, n| fifo.read(n));
    assert_eq!(out, [0u8; 4]);
}

#[test]
fn read_returns_partial_when_short() {
    let (buf, fifo) = create(1024);
    buf.write(b"abc", |_, d| fifo.write(d)).expect("write");

    let mut out = [0u8; 10];
    let n = buf.read(&mut out, |_, n| fifo.read(n));
    assert_eq!(n, 3);
    assert!(buf.is_empty(|_| fifo.inuse()));
}

#[test]
fn zero_fill_hands_over_whole_chunks() {
    let (buf, fifo) = create(4096);
    buf.write(b"xy", |_, d| fifo.write(d)).expect("write");
    let (filled, handed) = buf.zero_fill(600, Vec::new(), |mut handed, _, n| {
        handed.push(n);
        (handed, fifo.write(&vec![0; n]))
    });
    filled.expect("zero fill");
    assert_eq!(handed, vec![ZERO_CHUNK, ZERO_CHUNK, 600 - 2 * ZERO_CHUNK]);
    assert_eq!(fifo.inuse(), 602);
}

#[test]
fn zero_fill_counts_partial_writes() {
    let (buf, _) = create(4096);
    let (filled, handed) = buf.zero_fill(300, Vec::new(), |mut handed, _, n| {
        handed.push(n);
        (handed, 100.min(n))
    });
    filled.expect("zero fill");
    assert_eq!(handed, vec![256, 200, 100]);
}

#[test]
fn zero_fill_fails_when_nothing_is_taken() {
    let (buf, fifo) = create(300);
    let (r, _) = buf.zero_fill(400, (), |d, _, n| (d, fifo.write(&vec![0; n])));
    assert_eq!(r, Err(SwitchError(Status(GENERR))));
    assert_eq!(fifo.inuse(), 256);
}

#[test]
fn empty_requests_make_no_call() {
    let (buf, _) = create(16);
    assert_eq!(buf.write(&[], |_, _| panic!("no call")), Ok(()));
    assert_eq!(buf.read(&mut [], |_, _| panic!("no call")), 0);
    assert_eq!(buf.peek(&mut [], |_, _| panic!("no call")), 0);
    buf.toss(0, |_, _| panic!("no call"));
    assert_eq!(buf.zero_fill(0, 5, |_, _, _| panic!("no call")), (Ok(()), 5));
}

#[test]
fn refused_buffers_are_errors() {
    let refused = Buffer::with_growth(1, 2, 3, |b, s, m| {
        assert_eq!((b, s, m), (1, 2, 3));
        Created { status: 6, raw: 0x10 }
    });
    assert_eq!(refused.unwrap_err(), SwitchError(Status(6)));
    let missing = Buffer::new(8, |_, _, _| Created { status: 0, raw: 0 });
    assert_eq!(missing.unwrap_err(), SwitchError(Status(GENERR)));
    assert!(Buffer::from_raw(0).is_none());
    assert_eq!(Buffer::from_raw(7).unwrap().as_ptr(), 7);
    let full = Buffer::from_raw(7).unwrap();
    assert_eq!(full.write(b"x", |a, d| { assert_eq!((a, d), (7, &b"x"[..])); 0 }), Err(SwitchError(Status(GENERR))));
    assert_eq!(full.freespace(|_| 5), 5);
    assert_eq!(full.len(|_| 9), 9);
}
