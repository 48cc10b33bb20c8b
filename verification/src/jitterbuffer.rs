//! Jitter buffers of the core.

use vstd::prelude::*;
use crate::handle::{created, created_outcome, Address, At, Created, Handle, NULL};
use crate::status::{
    status_outcome, status_to_result, RawStatus, Result, Status, SwitchError, FALSE, SUCCESS,
};

verus! {

/// What a jitter buffer carries.
#[derive(Debug, Clone, Copy, PartialEq, Eq, Structural)]
pub enum JbKind {
    Video,
    Audio,
    Text,
}

/// The number of a kind on the core's side.
pub open spec fn raw_kind(kind: JbKind) -> u32 {
    match kind {
        JbKind::Video => SJB_VIDEO,
        JbKind::Audio => SJB_AUDIO,
        JbKind::Text => SJB_TEXT,
    }
}

pub const SJB_VIDEO: u32 = 0;
pub const SJB_AUDIO: u32 = 1;
pub const SJB_TEXT: u32 = 2;

/// Packets are queued and not handed out.
pub const SJB_QUEUE_ONLY: u32 = 1;

impl JbKind {
    /// The number of the kind on the core's side.
    pub fn as_raw(self) -> (r: u32)
        ensures
            r == raw_kind(self),
    {
        match self {
            JbKind::Video => SJB_VIDEO,
            JbKind::Audio => SJB_AUDIO,
            JbKind::Text => SJB_TEXT,
        }
    }
}

/// A flag of a jitter buffer.
#[derive(Debug, Clone, Copy, PartialEq, Eq, Structural)]
pub enum JbFlag {
    /// Packets are queued and not handed out.
    QueueOnly,
}

/// The bit of a flag on the core's side.
pub open spec fn raw_flag(flag: JbFlag) -> u32 {
    match flag {
        JbFlag::QueueOnly => SJB_QUEUE_ONLY,
    }
}

impl JbFlag {
    /// The bit of the flag on the core's side.
    pub fn as_raw(self) -> (r: u32)
        ensures
            r == raw_flag(self),
    {
        match self {
            JbFlag::QueueOnly => SJB_QUEUE_ONLY,
        }
    }
}

/// How a jitter buffer is made. Frame lengths are in milliseconds.
#[derive(Debug, Clone, Copy, PartialEq, Eq, Structural)]
pub struct JitterBufferConfig {
    pub kind: JbKind,
    pub min_frame_len: u32,
    pub max_frame_len: u32,
}

impl JitterBufferConfig {
    /// Frames of 20 to 120 milliseconds.
    pub fn new(kind: JbKind) -> (r: JitterBufferConfig)
        ensures
            r == (JitterBufferConfig { kind, min_frame_len: 20, max_frame_len: 120 }),
    {
        JitterBufferConfig { kind, min_frame_len: 20, max_frame_len: 120 }
    }

    /// Sets the shortest frame length.
    pub fn min_frame_len(self, ms: u32) -> (r: JitterBufferConfig)
        ensures
            r == (JitterBufferConfig { min_frame_len: ms, ..self }),
    {
        JitterBufferConfig { min_frame_len: ms, ..self }
    }

    /// Sets the longest frame length.
    pub fn max_frame_len(self, ms: u32) -> (r: JitterBufferConfig)
        ensures
            r == (JitterBufferConfig { max_frame_len: ms, ..self }),
    {
        JitterBufferConfig { max_frame_len: ms, ..self }
    }
}

/// The frame lengths of a jitter buffer, in milliseconds.
#[derive(Debug, Clone, Copy, PartialEq, Eq, Structural)]
pub struct JbFrames {
    pub min_frame_len: u32,
    pub max_frame_len: u32,
    pub cur_frame_len: u32,
    pub highest_frame_len: u32,
}

/// A jitter buffer of the core, with the memory pool that it was made in.
#[derive(Debug)]
pub struct JitterBuffer {
    raw: Handle,
    pool: Handle,
}

impl At for JitterBuffer {
    closed spec fn addr(&self) -> Address {
        self.raw.addr()
    }
}

/// What a request for a packet found, by its status: a packet, none, or an error.
pub open spec fn found_outcome(status: RawStatus) -> Result<bool> {
    if status == SUCCESS {
        Ok(true)
    } else if status == FALSE {
        Ok(false)
    } else {
        Err(SwitchError(Status(status)))
    }
}

/// What a request found, by its status.
pub fn found(status: RawStatus) -> (r: Result<bool>)
    ensures
        r == found_outcome(status),
{
    match status_to_result(status) {
        Ok(_) => Ok(true),
        Err(e) => if e.0.raw() == FALSE {
            Ok(false)
        } else {
            Err(e)
        },
    }
}

impl JitterBuffer {
    /// The address of the buffer's memory pool.
    pub closed spec fn pool_addr(&self) -> Address {
        self.pool.addr()
    }

    /// Makes a jitter buffer in a memory pool of its own. Where the core refuses the buffer, the
    /// pool is destroyed again.
    pub fn new<P, F, D>(config: JitterBufferConfig, new_pool: P, create: F, destroy_pool: D) -> (r:
        Result<JitterBuffer>)
        where
            P: FnOnce() -> Created,
            F: FnOnce(u32, u32, u32, Address) -> Created,
            D: FnOnce(Address),
        requires
            new_pool.requires(()),
            forall|pool: Created| #[trigger]
                new_pool.ensures((), pool) && created_outcome(pool) is Ok ==> create.requires(
                    (raw_kind(config.kind), config.min_frame_len, config.max_frame_len, pool.raw),
                ),
            forall|pool: Created, reply: Created|
                #![trigger new_pool.ensures((), pool), create.ensures(
                    (raw_kind(config.kind), config.min_frame_len, config.max_frame_len, pool.raw),
                    reply,
                )]
                new_pool.ensures((), pool) && created_outcome(pool) is Ok && create.ensures(
                    (raw_kind(config.kind), config.min_frame_len, config.max_frame_len, pool.raw),
                    reply,
                ) && reply.status != SUCCESS ==> destroy_pool.requires((pool.raw,)),
        ensures
            exists|pool: Created| #[trigger]
                new_pool.ensures((), pool) && match created_outcome(pool) {
                    Err(e) => r == Err::<JitterBuffer, SwitchError>(e),
                    Ok(p) => exists|reply: Created| #[trigger]
                        create.ensures(
                            (raw_kind(config.kind), config.min_frame_len, config.max_frame_len, p),
                            reply,
                        ) && match created_outcome(reply) {
                            Ok(raw) => r matches Ok(jb) && jb.addr() == raw && jb.pool_addr() == p,
                            Err(e) => r == Err::<JitterBuffer, SwitchError>(e) && (reply.status
                                != SUCCESS ==> destroy_pool.ensures((p,), ())),
                        },
                },
    {
        let pool = created(new_pool())?;
        let p: Address = pool.as_ptr();
        let reply = create(config.kind.as_raw(), config.min_frame_len, config.max_frame_len, p);
        if status_to_result(reply.status).is_err() {
            destroy_pool(p);
            return Err(SwitchError(Status::from_raw(reply.status)));
        }
        let raw = created(reply)?;
        Ok(JitterBuffer { raw, pool })
    }

    /// The buffer's address, which is never null.
    pub fn as_ptr(&self) -> (r: Address)
        ensures
            r == self.addr(),
            r != NULL,
    {
        self.raw.as_ptr()
    }

    /// Gives the buffer up: the buffer is destroyed first, then the pool that it stands in.
    pub fn release<D, P>(self, destroy: D, destroy_pool: P)
        where
            D: FnOnce(Address),
            P: FnOnce(Address),
        requires
            destroy.requires((self.addr(),)),
            destroy.ensures((self.addr(),), ()) ==> destroy_pool.requires((self.pool_addr(),)),
        ensures
            destroy.ensures((self.addr(),), ()),
            destroy_pool.ensures((self.pool_addr(),), ()),
    {
        destroy(self.raw.as_ptr());
        destroy_pool(self.pool.as_ptr());
    }

    /// Queues the packet at `packet`, of `len` bytes in all.
    pub fn put_packet<F>(&self, packet: Address, len: usize, call: F) -> (r: Result<()>)
        where
            F: FnOnce(Address, Address, usize) -> RawStatus,
        requires
            call.requires((self.addr(), packet, len)),
        ensures
            exists|reply: RawStatus| {
                &&& #[trigger] call.ensures((self.addr(), packet, len), reply)
                &&& r == status_outcome(reply)
            },
    {
        status_to_result(call(self.as_ptr(), packet, len))
    }

    /// Fetches the next packet into the packet at `packet`: `true` where there was one. `len` holds
    /// the room in it and then what the call left there.
    pub fn get_packet<F>(&self, packet: Address, len: &mut usize, call: F) -> (r: Result<bool>)
        where
            F: FnOnce(Address, Address, usize) -> (RawStatus, usize),
        requires
            call.requires((self.addr(), packet, *old(len))),
        ensures
            exists|status: RawStatus, n: usize| #[trigger]
                call.ensures((self.addr(), packet, *old(len)), (status, n)) && *final(len) == n
                    && r == found_outcome(status),
    {
        let (status, n) = call(self.as_ptr(), packet, *len);
        *len = n;
        found(status)
    }

    /// Fetches the packet with the sequence number `seq`: `true` where there was one.
    pub fn get_packet_by_seq<F>(&self, seq: u16, packet: Address, len: &mut usize, call: F) -> (r:
        Result<bool>)
        where
            F: FnOnce(Address, u16, Address, usize) -> (RawStatus, usize),
        requires
            call.requires((self.addr(), seq, packet, *old(len))),
        ensures
            exists|status: RawStatus, n: usize| #[trigger]
                call.ensures((self.addr(), seq, packet, *old(len)), (status, n)) && *final(len) == n
                    && r == found_outcome(status),
    {
        let (status, n) = call(self.as_ptr(), seq, packet, *len);
        *len = n;
        found(status)
    }

    /// Looks at a queued frame near a timestamp and a sequence number, `peek` frames ahead, and
    /// describes it in the frame at `frame`: `true` where there was one.
    pub fn peek_frame<F>(&self, ts: u32, seq: u16, peek: i32, frame: Address, call: F) -> (r: Result<
        bool,
    >)
        where
            F: FnOnce(Address, u32, u16, i32, Address) -> RawStatus,
        requires
            call.requires((self.addr(), ts, seq, peek, frame)),
        ensures
            exists|status: RawStatus| #[trigger]
                call.ensures((self.addr(), ts, seq, peek, frame), status) && r == found_outcome(
                    status,
                ),
    {
        found(call(self.as_ptr(), ts, seq, peek, frame))
    }

    /// The frame lengths, as the core reports them.
    pub fn frames<F>(&self, call: F) -> (r: Result<JbFrames>)
        where
            F: FnOnce(Address) -> (RawStatus, JbFrames),
        requires
            call.requires((self.addr(),)),
        ensures
            exists|status: RawStatus, f: JbFrames| #[trigger]
                call.ensures((self.addr(),), (status, f)) && r == match status_outcome(status) {
                    Ok(_) => Ok::<JbFrames, SwitchError>(f),
                    Err(e) => Err(e),
                },
    {
        let (status, f) = call(self.as_ptr());
        status_to_result(status)?;
        Ok(f)
    }

    /// The number of frames that are ready.
    pub fn poll<F>(&self, call: F) -> (r: i32)
        where
            F: FnOnce(Address) -> i32,
        requires
            call.requires((self.addr(),)),
        ensures
            call.ensures((self.addr(),), r),
    {
        call(self.as_ptr())
    }

    /// The number of frames in the buffer.
    pub fn frame_count<F>(&self, call: F) -> (r: i32)
        where
            F: FnOnce(Address) -> i32,
        requires
            call.requires((self.addr(),)),
        ensures
            call.ensures((self.addr(),), r),
    {
        call(self.as_ptr())
    }

    /// Sets the frame lengths.
    pub fn set_frames<F>(&self, min_frame_len: u32, max_frame_len: u32, call: F) -> (r: Result<()>)
        where
            F: FnOnce(Address, u32, u32) -> RawStatus,
        requires
            call.requires((self.addr(), min_frame_len, max_frame_len)),
        ensures
            exists|reply: RawStatus| {
                &&& #[trigger] call.ensures((self.addr(), min_frame_len, max_frame_len), reply)
                &&& r == status_outcome(reply)
            },
    {
        status_to_result(call(self.as_ptr(), min_frame_len, max_frame_len))
    }

    /// The length of the last packet that was fetched.
    pub fn last_read_len<F>(&self, call: F) -> (r: usize)
        where
            F: FnOnce(Address) -> usize,
        requires
            call.requires((self.addr(),)),
        ensures
            call.ensures((self.addr(),), r),
    {
        call(self.as_ptr())
    }

    /// The latest count of packets that were asked for again.
    pub fn pop_nack<F>(&self, call: F) -> (r: u32)
        where
            F: FnOnce(Address) -> u32,
        requires
            call.requires((self.addr(),)),
        ensures
            call.ensures((self.addr(),), r),
    {
        call(self.as_ptr())
    }

    /// How often asking again helped.
    pub fn nack_success<F>(&self, call: F) -> (r: u32)
        where
            F: FnOnce(Address) -> u32,
        requires
            call.requires((self.addr(),)),
        ensures
            call.ensures((self.addr(),), r),
    {
        call(self.as_ptr())
    }

    /// The number of packets in a frame.
    pub fn packets_per_frame<F>(&self, call: F) -> (r: u32)
        where
            F: FnOnce(Address) -> u32,
        requires
            call.requires((self.addr(),)),
        ensures
            call.ensures((self.addr(),), r),
    {
        call(self.as_ptr())
    }

    /// Says how timestamps are to be read.
    pub fn set_ts_mode<F>(&self, samples_per_frame: u32, samples_per_second: u32, call: F)
        where
            F: FnOnce(Address, u32, u32),
        requires
            call.requires((self.addr(), samples_per_frame, samples_per_second)),
        ensures
            call.ensures((self.addr(), samples_per_frame, samples_per_second), ()),
    {
        call(self.as_ptr(), samples_per_frame, samples_per_second)
    }

    /// Makes the buffer keep its estimate of the jitter at `jitter`.
    pub fn set_jitter_estimator<F>(
        &self,
        jitter: Address,
        samples_per_frame: u32,
        samples_per_second: u32,
        call: F,
    )
        where
            F: FnOnce(Address, Address, u32, u32),
        requires
            call.requires(
                (self.addr(), jitter, samples_per_frame, samples_per_second),
            ),
        ensures
            call.ensures(
                (self.addr(), jitter, samples_per_frame, samples_per_second),
                (),
            ),
    {
        call(self.as_ptr(), jitter, samples_per_frame, samples_per_second)
    }

    /// Ties the buffer to a session; null unties it.
    pub fn set_session<F>(&self, session: Address, call: F)
        where
            F: FnOnce(Address, Address),
        requires
            call.requires((self.addr(), session)),
        ensures
            call.ensures((self.addr(), session), ()),
    {
        call(self.as_ptr(), session)
    }

    /// Empties the buffer.
    pub fn reset<F>(&self, call: F)
        where
            F: FnOnce(Address),
        requires
            call.requires((self.addr(),)),
        ensures
            call.ensures((self.addr(),), ()),
    {
        call(self.as_ptr())
    }

    /// Sets how much the buffer logs.
    pub fn set_debug_level<F>(&self, level: u8, call: F)
        where
            F: FnOnce(Address, u8),
        requires
            call.requires((self.addr(), level)),
        ensures
            call.ensures((self.addr(), level), ()),
    {
        call(self.as_ptr(), level)
    }

    /// Sets a flag.
    pub fn set_flag<F>(&self, flag: JbFlag, call: F)
        where
            F: FnOnce(Address, u32),
        requires
            call.requires((self.addr(), raw_flag(flag))),
        ensures
            call.ensures((self.addr(), raw_flag(flag)), ()),
    {
        call(self.as_ptr(), flag.as_raw())
    }

    /// Clears a flag.
    pub fn clear_flag<F>(&self, flag: JbFlag, call: F)
        where
            F: FnOnce(Address, u32),
        requires
            call.requires((self.addr(), raw_flag(flag))),
        ensures
            call.ensures((self.addr(), raw_flag(flag)), ()),
    {
        call(self.as_ptr(), flag.as_raw())
    }
}

/// The kinds of jitter buffer and its flag, by their numbers.
pub proof fn jitter_kinds_have_their_numbers(kind: JbKind, flag: JbFlag)
    ensures
        kind is Video <==> raw_kind(kind) == 0,
        kind is Audio <==> raw_kind(kind) == 1,
        kind is Text <==> raw_kind(kind) == 2,
        raw_flag(flag) == 1,
{
}

/// A search found something where its status is zero and nothing where it is one; any other status is
/// the error.
pub proof fn searches_tell_nothing_from_failure(status: RawStatus)
    ensures
        found_outcome(status) == Ok::<bool, SwitchError>(true) <==> status == 0,
        found_outcome(status) == Ok::<bool, SwitchError>(false) <==> status == 1,
        found_outcome(status) is Err <==> status != 0 && status != 1,
        found_outcome(status) matches Err(e) ==> e.0.0 == status,
{
}

} // verus!
