//! FIFO byte buffers of FreeSWITCH (`switch_buffer_t`).
//!
//! A [`Buffer`] stands for a growable FIFO of bytes that the core holds: `write` appends to the
//! tail, `read` and `peek` look at the head, `toss` discards from it. The last parameter of each
//! operation is the call into the core; it takes the buffer's address and plain values.

use vstd::prelude::*;
use crate::handle::{created, made_at, maybe_at, Address, At, Created, Handle, NULL};
use crate::status::{generic_error, Result, SwitchError};

verus! {

/// The number of bytes by which a dynamic buffer grows.
pub const DEFAULT_BLOCKSIZE: usize = 1024;

/// The most zero bytes that [`Buffer::zero_fill`] hands over in one call.
pub const ZERO_CHUNK: usize = 256;

/// A dynamic FIFO byte buffer.
#[derive(Debug)]
pub struct Buffer {
    raw: Handle,
}

/// The bytes that are still to be written when the core has answered `replies` to the calls of
/// `zero_fill`. A reply counts for no more than was handed over: the core reports the bytes that
/// the buffer then holds, so a larger number says that the whole chunk was taken.
pub open spec fn left_to_fill(len: nat, replies: Seq<usize>) -> nat
    decreases replies.len(),
{
    if replies.len() == 0 {
        len
    } else {
        let before = left_to_fill(len, replies.drop_last());
        let chunk = zero_chunk(before);
        let taken = if replies.last() < chunk {
            replies.last() as nat
        } else {
            chunk
        };
        (before - taken) as nat
    }
}

/// The number of zero bytes that are handed over when `remaining` are to be written.
pub open spec fn zero_chunk(remaining: nat) -> nat {
    if remaining < ZERO_CHUNK {
        remaining
    } else {
        ZERO_CHUNK as nat
    }
}

/// Whether `replies` are the answers to the successive calls of `zero_fill`: the call after the first
/// `i` answers hands over one chunk of what those left to be written. `states` are the states of the
/// caller's side that the calls pass on, the first before the first call and the last behind the last.
pub open spec fn fill_run<D, F>(
    call: F,
    raw: Address,
    len: nat,
    states: Seq<D>,
    replies: Seq<usize>,
) -> bool
    where
        F: Fn(D, Address, usize) -> (D, usize),
{
    &&& states.len() == replies.len() + 1
    &&& forall|i: int|
        0 <= i < replies.len() ==> #[trigger] call.ensures(
            (states[i], raw, zero_chunk(left_to_fill(len, replies.take(i))) as usize),
            (states[i + 1], replies[i]),
        )
}

/// Whether `r` is what the core's answer to a write amounts to: nothing is asked for an empty slice, and
/// a reply of zero says that nothing could be written.
pub open spec fn write_answered<F>(call: F, raw: Address, data: &[u8], r: Result<()>) -> bool
    where
        F: FnOnce(Address, &[u8]) -> usize,
{
    if data@.len() == 0 {
        r == Ok::<(), SwitchError>(())
    } else {
        exists|written: usize|
            #[trigger] call.ensures((raw, data), written) && r == if written == 0 {
                Err::<(), SwitchError>(generic_error())
            } else {
                Ok(())
            }
    }
}

/// Whether the `n` bytes that the core answered with stand at the head of a destination that was
/// `before` and is `after`. Nothing is asked where there is no room.
pub open spec fn copied_out<F>(
    call: F,
    raw: Address,
    before: Seq<u8>,
    after: Seq<u8>,
    n: usize,
) -> bool
    where
        F: FnOnce(Address, usize) -> Vec<u8>,
{
    if before.len() == 0 {
        n == 0 && after == before
    } else {
        exists|b: Vec<u8>|
            #[trigger] call.ensures((raw, before.len() as usize), b) && n == b@.len() && after == b@
                + before.skip(n as int)
    }
}

impl At for Buffer {
    closed spec fn addr(&self) -> Address {
        self.raw.addr()
    }
}

impl Buffer {
    /// Makes a dynamic buffer for up to `capacity` bytes that starts with one block and grows by
    /// one block at a time.
    pub fn new<F>(capacity: usize, call: F) -> (r: Result<Buffer>)
        where
            F: FnOnce(usize, usize, usize) -> Created,
        requires
            call.requires((DEFAULT_BLOCKSIZE, DEFAULT_BLOCKSIZE, capacity)),
        ensures
            exists|reply: Created|
                #[trigger] call.ensures((DEFAULT_BLOCKSIZE, DEFAULT_BLOCKSIZE, capacity), reply)
                    && made_at(r, reply),
    {
        Buffer::with_growth(DEFAULT_BLOCKSIZE, DEFAULT_BLOCKSIZE, capacity, call)
    }

    /// Makes a dynamic buffer that starts with `start_len` bytes, grows by `blocksize` bytes and
    /// holds at most `max_len`; zero sets no bound.
    pub fn with_growth<F>(blocksize: usize, start_len: usize, max_len: usize, call: F) -> (r: Result<
        Buffer,
    >)
        where
            F: FnOnce(usize, usize, usize) -> Created,
        requires
            call.requires((blocksize, start_len, max_len)),
        ensures
            exists|reply: Created|
                #[trigger] call.ensures((blocksize, start_len, max_len), reply)
                    && made_at(r, reply),
    {
        let reply = call(blocksize, start_len, max_len);
        let raw = created(reply)?;
        Ok(Buffer { raw })
    }

    /// Takes over a buffer that was made elsewhere; `None` for the null pointer.
    pub fn from_raw(raw: Address) -> (r: Option<Buffer>)
        ensures
            maybe_at(r, raw),
    {
        match Handle::new(raw) {
            Some(raw) => Some(Buffer { raw }),
            None => None,
        }
    }

    /// The buffer's address, which is never null.
    pub fn as_ptr(&self) -> (r: Address)
        ensures
            r == self.addr(),
            r != NULL,
    {
        self.raw.as_ptr()
    }

    /// Appends `data` to the tail. Nothing is done for an empty slice; a reply of zero says that
    /// nothing could be written.
    pub fn write<F>(&self, data: &[u8], call: F) -> (r: Result<()>)
        where
            F: FnOnce(Address, &[u8]) -> usize,
        requires
            data@.len() > 0 ==> call.requires((self.addr(), data)),
        ensures
            write_answered(call, self.addr(), data, r),
    {
        if data.len() == 0 {
            return Ok(());
        }
        let written: usize = call(self.as_ptr(), data);
        if written == 0 {
            Err(SwitchError::generic())
        } else {
            Ok(())
        }
    }

    /// Reads up to `dst.len()` bytes from the head into the head of `dst`, and returns their
    /// number. `call` is handed the number that is wanted and returns the bytes, no more than that.
    pub fn read<F>(&self, dst: &mut [u8], call: F) -> (n: usize)
        where
            F: FnOnce(Address, usize) -> Vec<u8>,
        requires
            old(dst)@.len() > 0 ==> call.requires((self.addr(), old(dst)@.len() as usize)),
            forall|a: Address, k: usize, b: Vec<u8>|
                #[trigger] call.ensures((a, k), b) ==> b@.len() <= k,
        ensures
            final(dst)@.len() == old(dst)@.len(),
            copied_out(call, self.addr(), old(dst)@, final(dst)@, n),
    {
        if dst.len() == 0 {
            return 0;
        }
        let wanted: usize = dst.len();
        let bytes = call(self.as_ptr(), wanted);
        overwrite_head(dst, &bytes);
        bytes.len()
    }

    /// Copies up to `dst.len()` bytes from the head of the buffer into the head of `dst` without
    /// removing them, and returns their number.
    pub fn peek<F>(&self, dst: &mut [u8], call: F) -> (n: usize)
        where
            F: FnOnce(Address, usize) -> Vec<u8>,
        requires
            old(dst)@.len() > 0 ==> call.requires((self.addr(), old(dst)@.len() as usize)),
            forall|a: Address, k: usize, b: Vec<u8>|
                #[trigger] call.ensures((a, k), b) ==> b@.len() <= k,
        ensures
            final(dst)@.len() == old(dst)@.len(),
            copied_out(call, self.addr(), old(dst)@, final(dst)@, n),
    {
        if dst.len() == 0 {
            return 0;
        }
        let wanted: usize = dst.len();
        let bytes = call(self.as_ptr(), wanted);
        overwrite_head(dst, &bytes);
        bytes.len()
    }

    /// Discards up to `n` bytes from the head. Nothing is done for zero.
    pub fn toss<F>(&self, n: usize, call: F)
        where
            F: FnOnce(Address, usize),
        requires
            n != 0 ==> call.requires((self.addr(), n)),
        ensures
            n != 0 ==> call.ensures((self.addr(), n), ()),
    {
        if n != 0 {
            call(self.as_ptr(), n);
        }
    }

    /// Writes `len` zero bytes, at most [`ZERO_CHUNK`] in one call, and every one once. `call` is handed
    /// the number of zeros; a reply of zero says that none could be written, and ends the work with an
    /// error. It may keep a state, which starts as `state` and is passed from call to call; the one that
    /// it ends with is returned beside the result.
    pub fn zero_fill<D, F>(&self, len: usize, state: D, call: F) -> (r: (Result<()>, D))
        where
            F: Fn(D, Address, usize) -> (D, usize),
        requires
            forall|d: D, k: usize|
                0 < k <= ZERO_CHUNK && k <= len ==> #[trigger] call.requires((d, self.addr(), k)),
        ensures
            exists|states: Seq<D>, replies: Seq<usize>|
                {
                    &&& #[trigger] fill_run(call, self.addr(), len as nat, states, replies)
                    &&& states[0] == state
                    &&& states.last() == r.1
                    &&& forall|i: int| 0 <= i < replies.len() - 1 ==> replies[i] != 0
                    &&& forall|i: int|
                        0 <= i < replies.len() ==> left_to_fill(len as nat, #[trigger] replies.take(i))
                            > 0
                    &&& match r.0 {
                        Ok(_) => left_to_fill(len as nat, replies) == 0 && (replies.len() > 0
                            ==> replies.last() != 0),
                        Err(e) => e == generic_error() && replies.len() > 0 && replies.last() == 0,
                    }
                },
    {
        let mut remaining: usize = len;
        let mut now: D = state;
        let ghost mut states: Seq<D> = seq![state];
        let ghost mut replies: Seq<usize> = Seq::empty();
        while remaining > 0
            invariant
                forall|d: D, k: usize|
                    0 < k <= ZERO_CHUNK && k <= len ==> #[trigger] call.requires((d, self.addr(), k)),
                remaining <= len,
                remaining == left_to_fill(len as nat, replies),
                fill_run(call, self.addr(), len as nat, states, replies),
                states[0] == state,
                states.last() == now,
                forall|i: int| 0 <= i < replies.len() ==> replies[i] != 0,
                forall|i: int|
                    0 <= i < replies.len() ==> left_to_fill(len as nat, #[trigger] replies.take(i)) > 0,
            decreases remaining,
        {
            let n: usize = if remaining < ZERO_CHUNK {
                remaining
            } else {
                ZERO_CHUNK
            };
            let (next, written) = call(now, self.as_ptr(), n);
            let ghost passed = states;
            let ghost before = replies;
            proof {
                states = passed.push(next);
                replies = before.push(written);
                assert(replies.drop_last() =~= before);
                assert forall|i: int| 0 <= i < replies.len() implies #[trigger] call.ensures(
                    (
                        states[i],
                        self.addr(),
                        zero_chunk(left_to_fill(len as nat, replies.take(i))) as usize,
                    ),
                    (states[i + 1], replies[i]),
                ) by {
                    if i < before.len() {
                        assert(replies.take(i) =~= before.take(i));
                        assert(states[i] == passed[i] && states[i + 1] == passed[i + 1]);
                        assert(replies[i] == before[i]);
                        assert(call.ensures(
                            (
                                passed[i],
                                self.addr(),
                                zero_chunk(left_to_fill(len as nat, before.take(i))) as usize,
                            ),
                            (passed[i + 1], before[i]),
                        ));
                    } else {
                        assert(replies.take(i) =~= before);
                    }
                }
                assert(fill_run(call, self.addr(), len as nat, states, replies));
                assert forall|i: int| 0 <= i < replies.len() implies left_to_fill(
                    len as nat,
                    #[trigger] replies.take(i),
                ) > 0 by {
                    if i < before.len() {
                        assert(replies.take(i) =~= before.take(i));
                    } else {
                        assert(replies.take(i) =~= before);
                    }
                }
            }
            now = next;
            if written == 0 {
                return (Err(SwitchError::generic()), now);
            }
            let taken: usize = if written < n {
                written
            } else {
                n
            };
            remaining = remaining - taken;
        }
        (Ok(()), now)
    }

    /// The number of bytes that can still be written.
    pub fn freespace<F>(&self, call: F) -> (n: usize)
        where
            F: FnOnce(Address) -> usize,
        requires
            call.requires((self.addr(),)),
        ensures
            call.ensures((self.addr(),), n),
    {
        call(self.as_ptr())
    }

    /// The number of bytes that are buffered.
    pub fn inuse<F>(&self, call: F) -> (n: usize)
        where
            F: FnOnce(Address) -> usize,
        requires
            call.requires((self.addr(),)),
        ensures
            call.ensures((self.addr(),), n),
    {
        call(self.as_ptr())
    }

    /// The buffer's capacity.
    pub fn len<F>(&self, call: F) -> (n: usize)
        where
            F: FnOnce(Address) -> usize,
        requires
            call.requires((self.addr(),)),
        ensures
            call.ensures((self.addr(),), n),
    {
        call(self.as_ptr())
    }

    /// Whether nothing is buffered. `call` reports the number of bytes in use.
    pub fn is_empty<F>(&self, call: F) -> (r: bool)
        where
            F: FnOnce(Address) -> usize,
        requires
            call.requires((self.addr(),)),
        ensures
            exists|n: usize| #[trigger] call.ensures((self.addr(),), n) && r == (n == 0),
    {
        self.inuse(call) == 0
    }

    /// Removes everything that is buffered.
    pub fn zero<F>(&self, call: F)
        where
            F: FnOnce(Address),
        requires
            call.requires((self.addr(),)),
        ensures
            call.ensures((self.addr(),), ()),
    {
        call(self.as_ptr())
    }
}

/// Copies `bytes` over the head of `dst`.
pub fn overwrite_head<T: Copy>(dst: &mut [T], bytes: &Vec<T>)
    requires
        bytes@.len() <= old(dst)@.len(),
    ensures
        final(dst)@ == bytes@ + old(dst)@.skip(bytes@.len() as int),
        final(dst)@.len() == old(dst)@.len(),
{
    let ghost start = dst@;
    let mut i: usize = 0;
    while i < bytes.len()
        invariant
            i <= bytes@.len() <= start.len(),
            dst@.len() == start.len(),
            dst@ == bytes@.take(i as int) + start.skip(i as int),
        decreases bytes@.len() - i,
    {
        dst[i] = bytes[i];
        i = i + 1;
        proof {
            assert(dst@ =~= bytes@.take(i as int) + start.skip(i as int));
        }
    }
    proof {
        assert(bytes@.take(i as int) =~= bytes@);
    }
}

/// What every call of `zero_fill` hands over is at most one chunk and at least one byte, and what
/// is left never grows.
pub proof fn zero_fill_progress(len: nat, replies: Seq<usize>)
    ensures
        left_to_fill(len, replies) <= len,
        left_to_fill(len, replies) > 0 ==> 0 < zero_chunk(left_to_fill(len, replies)) <= ZERO_CHUNK,
    decreases replies.len(),
{
    if replies.len() > 0 {
        zero_fill_progress(len, replies.drop_last());
    }
}

/// Where the core takes every chunk whole, `len` zero bytes take as many calls as there are chunks
/// in `len`, the last one of them perhaps short.
pub proof fn zero_fill_whole_chunks(len: nat, replies: Seq<usize>)
    requires
        forall|i: int| 0 <= i < replies.len() ==> replies[i] >= ZERO_CHUNK,
    ensures
        left_to_fill(len, replies) == if replies.len() * ZERO_CHUNK < len {
            (len - replies.len() * ZERO_CHUNK) as nat
        } else {
            0
        },
    decreases replies.len(),
{
    if replies.len() > 0 {
        let rest = replies.drop_last();
        assert forall|i: int| 0 <= i < rest.len() implies rest[i] >= ZERO_CHUNK by {
            assert(rest[i] == replies[i]);
        }
        zero_fill_whole_chunks(len, rest);
    }
}

/// Whether `call` writes to a FIFO that holds `before`, and `after` behind it: the data goes to the tail
/// as a whole and the number of bytes that are held is reported, or none of it and zero is.
pub open spec fn fifo_writes<F>(
    call: F,
    raw: Address,
    data: &[u8],
    before: Seq<u8>,
    after: Seq<u8>,
) -> bool
    where
        F: FnOnce(Address, &[u8]) -> usize,
{
    if data@.len() == 0 {
        after == before
    } else {
        forall|n: usize| #[trigger]
            call.ensures((raw, data), n) ==> if n == 0 {
                after == before
            } else {
                after == before + data@ && n == after.len()
            }
    }
}

/// The number of bytes that a destination of `room` bytes can take of `held`.
pub open spec fn fits(room: nat, held: Seq<u8>) -> nat {
    if room < held.len() {
        room
    } else {
        held.len()
    }
}

/// Whether `call` copies out of a FIFO that holds `held`: the bytes at its head, as many as fit.
pub open spec fn fifo_shows<F>(call: F, raw: Address, room: nat, held: Seq<u8>) -> bool
    where
        F: FnOnce(Address, usize) -> Vec<u8>,
{
    forall|b: Vec<u8>| #[trigger]
        call.ensures((raw, room as usize), b) ==> b@ == held.take(fits(room, held) as int)
}

/// Whether `call` counts the bytes of a FIFO that holds `held`.
pub open spec fn fifo_counts<F>(call: F, raw: Address, held: Seq<u8>) -> bool
    where
        F: FnOnce(Address) -> usize,
{
    forall|n: usize| #[trigger] call.ensures((raw,), n) ==> n == held.len()
}

/// What was written is read back in order. Two writes to an empty buffer that succeed, and a read: it
/// gives the bytes of the first write and then those of the second, as many as there is room for, the
/// rest of the destination is unchanged, and the bytes that were not read are what the buffer still
/// holds and counts.
///
/// The core's buffer is taken to be a FIFO: `first` and `second` write to it, `reading` shows its head,
/// and `counting` counts what is left when the read has removed that. `held` is what it holds between
/// the writes, and `all` after them.
pub proof fn writes_are_read_in_order<V, W, R, C>(
    first: V,
    second: W,
    reading: R,
    counting: C,
    raw: Address,
    x: &[u8],
    y: &[u8],
    held: Seq<u8>,
    all: Seq<u8>,
    before: Seq<u8>,
    after: Seq<u8>,
    n: usize,
    left: usize,
)
    where
        V: FnOnce(Address, &[u8]) -> usize,
        W: FnOnce(Address, &[u8]) -> usize,
        R: FnOnce(Address, usize) -> Vec<u8>,
        C: FnOnce(Address) -> usize,
    requires
        write_answered(first, raw, x, Ok(())),
        fifo_writes(first, raw, x, Seq::empty(), held),
        write_answered(second, raw, y, Ok(())),
        fifo_writes(second, raw, y, held, all),
        copied_out(reading, raw, before, after, n),
        fifo_shows(reading, raw, before.len(), all),
        counting.ensures((raw,), left),
        fifo_counts(counting, raw, all.skip(fits(before.len(), all) as int)),
    ensures
        all == x@ + y@,
        n == fits(before.len(), x@ + y@),
        after == (x@ + y@).take(n as int) + before.skip(n as int),
        left == x@.len() + y@.len() - n,
        (x@ + y@).take(n as int) + all.skip(n as int) == x@ + y@,
{
    assert(held =~= x@);
    assert(all =~= x@ + y@);
    if before.len() == 0 {
        assert(after =~= (x@ + y@).take(0) + before.skip(0));
    }
    assert((x@ + y@).take(n as int) + (x@ + y@).skip(n as int) =~= x@ + y@);
}

/// A peek leaves the buffer as it was: it gives the bytes at the head, as many as there is room for, a
/// read of the same room right after gives the same number and the same bytes, and in between as many
/// bytes are counted as before. The core's buffer is taken to be a FIFO that holds `held`.
pub proof fn peek_shows_what_a_read_takes<P, R, C>(
    peeking: P,
    reading: R,
    counting: C,
    raw: Address,
    held: Seq<u8>,
    before: Seq<u8>,
    peeked: Seq<u8>,
    read: Seq<u8>,
    n: usize,
    m: usize,
    counted: usize,
)
    where
        P: FnOnce(Address, usize) -> Vec<u8>,
        R: FnOnce(Address, usize) -> Vec<u8>,
        C: FnOnce(Address) -> usize,
    requires
        copied_out(peeking, raw, before, peeked, n),
        fifo_shows(peeking, raw, before.len(), held),
        counting.ensures((raw,), counted),
        fifo_counts(counting, raw, held),
        copied_out(reading, raw, before, read, m),
        fifo_shows(reading, raw, before.len(), held),
    ensures
        n == fits(before.len(), held),
        peeked == held.take(n as int) + before.skip(n as int),
        counted == held.len(),
        m == n,
        read == peeked,
{
    if before.len() == 0 {
        assert(peeked =~= held.take(0) + before.skip(0));
    }
}

/// Zeros are written in the largest pieces that neither exceed 256 bytes nor what is left, and each
/// reply takes off what it says was written, never more than was handed over.
pub proof fn zeros_are_written_piece_by_piece(len: nat, replies: Seq<usize>, written: usize)
    ensures
        left_to_fill(len, Seq::empty()) == len,
        zero_chunk(len) <= 256,
        zero_chunk(len) <= len,
        zero_chunk(len) == 256 || zero_chunk(len) == len,
        ({
            let before = left_to_fill(len, replies);
            let after = left_to_fill(len, replies.push(written));
            &&& after <= before
            &&& before - after <= written
            &&& before - after <= 256
            &&& before - after == written || before - after == 256 || after == 0
        }),
{
    assert(replies.push(written).drop_last() =~= replies);
}

/// Each call of a fill hands over as much as is left, at most 256 bytes, from the state that the call
/// before it left behind.
pub proof fn each_fill_hands_over_what_is_left<D, F>(
    call: F,
    raw: Address,
    len: nat,
    states: Seq<D>,
    replies: Seq<usize>,
    i: int,
) where F: Fn(D, Address, usize) -> (D, usize)
    requires
        fill_run(call, raw, len, states, replies),
        0 <= i < replies.len(),
    ensures
        states.len() == replies.len() + 1,
        exists|n: usize|
            #![trigger call.ensures((states[i], raw, n), (states[i + 1], replies[i]))]
            n <= 256 && n <= left_to_fill(len, replies.take(i)) && (n == 256 || n == left_to_fill(
                len,
                replies.take(i),
            )) && call.ensures((states[i], raw, n), (states[i + 1], replies[i])),
{
    let left = left_to_fill(len, replies.take(i));
    zeros_are_written_piece_by_piece(left, replies, 0);
    let n = zero_chunk(left) as usize;
    assert(call.ensures((states[i], raw, n), (states[i + 1], replies[i])));
}

/// Nothing to write is written without a call. Anything else is handed over whole, and the write failed,
/// with the general error, exactly where the call says that nothing is held.
pub proof fn writes_are_handed_over_whole<F>(call: F, raw: Address, data: &[u8], r: Result<()>) where
    F: FnOnce(Address, &[u8]) -> usize,

    requires
        write_answered(call, raw, data, r),
    ensures
        data@.len() == 0 ==> r is Ok,
        data@.len() > 0 ==> exists|written: usize|
            #[trigger] call.ensures((raw, data), written) && (r is Ok <==> written > 0),
        r matches Err(e) ==> e.0.0 == 9,
{
}

/// Reading takes no more than there is room for: what came is put at the front, byte for byte, and the
/// rest of the room stays as it was. Without room nothing is asked for and nothing comes.
pub proof fn reads_fill_the_front<F>(
    call: F,
    raw: Address,
    before: Seq<u8>,
    after: Seq<u8>,
    n: usize,
) where F: FnOnce(Address, usize) -> Vec<u8>
    requires
        copied_out(call, raw, before, after, n),
        n <= before.len() <= usize::MAX,
    ensures
        after.len() == before.len(),
        forall|i: int| n <= i < before.len() ==> #[trigger] after[i] == before[i],
        before.len() == 0 ==> n == 0,
        before.len() > 0 ==> exists|b: Vec<u8>, room: usize|
            #[trigger] call.ensures((raw, room), b) && room == before.len() && b@.len() == n && forall|
                i: int,
            |
                0 <= i < n ==> #[trigger] after[i] == b@[i],
{
    if before.len() > 0 {
        let b = choose|b: Vec<u8>| #[trigger]
            call.ensures((raw, before.len() as usize), b) && n == b@.len() && after == b@
                + before.skip(n as int);
        let room = before.len() as usize;
        assert(call.ensures((raw, room), b));
        assert forall|i: int| n <= i < before.len() implies #[trigger] after[i] == before[i] by {
            assert((b@ + before.skip(n as int))[i] == before.skip(n as int)[i - n]);
        }
    }
}

/// What fits is the smaller of the room and what is held.
pub proof fn what_fits_is_the_smaller(room: nat, held: Seq<u8>)
    ensures
        fits(room, held) <= room,
        fits(room, held) <= held.len(),
        fits(room, held) == room || fits(room, held) == held.len(),
{
}

} // verus!
