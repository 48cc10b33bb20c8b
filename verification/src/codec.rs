//! Codecs: setting one up, encoding and decoding.

use vstd::prelude::*;
use crate::buffer::overwrite_head;
use crate::command::{c_safe, cstring, CText};
use crate::handle::{Address, At, Handle, NULL};
use crate::pool::Pool;
use crate::session::Session;
use crate::status::{
    generic_error, status_outcome, status_to_result, RawStatus, Result, SwitchError,
};

verus! {

/// A codec that the core has set up.
#[derive(Debug)]
pub struct Codec {
    raw: Handle,
    rate: u32,
}

impl At for Codec {
    closed spec fn addr(&self) -> Address {
        self.raw.addr()
    }
}

/// What the core answers to an encoding or a decoding: the status, the length that it reports, and
/// the bytes that it has put at the head of the destination.
#[derive(Debug)]
pub struct Coded {
    pub status: RawStatus,
    pub out_len: u32,
    pub bytes: Vec<u8>,
}

/// The length of a buffer as the codec calls take it: 32 bits of it.
pub open spec fn length_argument(len: nat) -> u32 {
    (len % 0x1_0000_0000) as u32
}

/// The length of a buffer as the codec calls take it.
fn length_of(len: usize) -> (r: u32)
    ensures
        r == length_argument(len as nat),
{
    let low: u64 = (len as u64) % 0x1_0000_0000;
    low as u32
}

impl Codec {
    /// The sample rate that the codec was set up with.
    pub closed spec fn set_rate(&self) -> u32 {
        self.rate
    }

    /// Sets up the codec that is called `implementation`, with its data in `pool`. `raw` is the
    /// address of zeroed storage for it; a zero for the rate, the packet length in milliseconds or
    /// the number of channels leaves the choice to the core.
    pub fn new<F>(
        implementation: &str,
        rate: u32,
        ms: u32,
        channels: u32,
        pool: &Pool,
        raw: Handle,
        call: F,
    ) -> (r: Result<Codec>)
        where
            F: FnOnce(Address, &CText, u32, u32, u32, Address) -> RawStatus,
        requires
            c_safe(implementation@) ==> forall|implementation_c: &CText|
                #![trigger call.requires((raw.addr(), implementation_c, rate, ms, channels,
                    pool.addr()))]
                implementation_c.spells(implementation@) ==> call.requires((raw.addr(),
                    implementation_c, rate, ms, channels, pool.addr())),
        ensures
            !c_safe(implementation@) ==> r == Err::<Codec, SwitchError>(generic_error()),
            c_safe(implementation@) ==> exists|implementation_c: &CText, reply: RawStatus|
                implementation_c.spells(implementation@) && #[trigger] call.ensures(
                    (raw.addr(), implementation_c, rate, ms, channels, pool.addr()),
                    reply,
                ) && match status_outcome(reply) {
                    Ok(_) => r matches Ok(c) && c.addr() == raw.addr() && c.set_rate() == rate,
                    Err(e) => r == Err::<Codec, SwitchError>(e),
                },
    {
        let implementation = cstring(implementation)?;
        status_to_result(
            call(raw.as_ptr(), &implementation, rate, ms, channels, pool.as_ptr()),
        )?;
        Ok(Codec { raw, rate })
    }

    /// Gives the codec up: the core destroys it, and then its storage is freed by `reclaim`, whatever the
    /// status. An error says that the core did not destroy it in order; it is logged.
    pub fn release<D, R, L>(self, destroy: D, reclaim: R, log: L)
        where
            D: FnOnce(Address) -> RawStatus,
            R: FnOnce(Address),
            L: FnOnce(SwitchError),
        requires
            destroy.requires((self.addr(),)),
            forall|reply: RawStatus| #[trigger]
                destroy.ensures((self.addr(),), reply) ==> reclaim.requires((self.addr(),)),
            forall|reply: RawStatus, e: SwitchError|
                #![trigger destroy.ensures((self.addr(),), reply), log.requires((e,))]
                destroy.ensures((self.addr(),), reply) && status_outcome(reply) == Err::<
                    (),
                    SwitchError,
                >(e) ==> log.requires((e,)),
        ensures
            exists|reply: RawStatus| #[trigger]
                destroy.ensures((self.addr(),), reply) && (status_outcome(reply) matches Err(e)
                    ==> log.ensures((e,), ())),
            reclaim.ensures((self.addr(),), ()),
    {
        let raw: Address = self.raw.as_ptr();
        let reply: RawStatus = destroy(raw);
        match status_to_result(reply) {
            Ok(_) => {},
            Err(e) => {
                log(e);
            },
        }
        reclaim(raw);
    }

    /// The codec's address, which is never null.
    pub fn as_ptr(&self) -> (r: Address)
        ensures
            r == self.addr(),
            r != NULL,
    {
        self.raw.as_ptr()
    }

    /// The sample rate that the codec was set up with.
    pub fn rate(&self) -> (r: u32)
        ensures
            r == self.set_rate(),
    {
        self.rate
    }

    /// Encodes `src` into `dst` at the codec's rate and returns the length that the core reports.
    /// `call` is handed the codec, the source, the rate and the room in the destination; the bytes
    /// that it returns fit into that room.
    pub fn encode<F>(&self, src: &[u8], dst: &mut [u8], call: F) -> (r: Result<usize>)
        where
            F: FnOnce(Address, &[u8], u32, u32) -> Coded,
        requires
            call.requires((self.addr(), src, self.set_rate(), length_argument(old(dst)@.len()))),
            forall|a: Address, b: &[u8], c: u32, d: u32, e: Coded| #[trigger]
                call.ensures((a, b, c, d), e) ==> e.bytes@.len() <= d,
        ensures
            final(dst)@.len() == old(dst)@.len(),
            exists|reply: Coded| #[trigger]
                call.ensures(
                    (self.addr(), src, self.set_rate(), length_argument(old(dst)@.len())),
                    reply,
                ) && coded(r, reply) && final(dst)@ == reply.bytes@ + old(dst)@.skip(
                    reply.bytes@.len() as int,
                ),
    {
        let room: u32 = length_of(dst.len());
        let reply = call(self.as_ptr(), src, self.rate, room);
        overwrite_head(dst, &reply.bytes);
        status_to_result(reply.status)?;
        Ok(reply.out_len as usize)
    }

    /// Decodes `src` into `dst` at the codec's rate and returns the length that the core reports.
    /// `call` is handed the codec, the source, the rate and the room in the destination; the bytes
    /// that it returns fit into that room.
    pub fn decode<F>(&self, src: &[u8], dst: &mut [u8], call: F) -> (r: Result<usize>)
        where
            F: FnOnce(Address, &[u8], u32, u32) -> Coded,
        requires
            call.requires((self.addr(), src, self.set_rate(), length_argument(old(dst)@.len()))),
            forall|a: Address, b: &[u8], c: u32, d: u32, e: Coded| #[trigger]
                call.ensures((a, b, c, d), e) ==> e.bytes@.len() <= d,
        ensures
            final(dst)@.len() == old(dst)@.len(),
            exists|reply: Coded| #[trigger]
                call.ensures(
                    (self.addr(), src, self.set_rate(), length_argument(old(dst)@.len())),
                    reply,
                ) && coded(r, reply) && final(dst)@ == reply.bytes@ + old(dst)@.skip(
                    reply.bytes@.len() as int,
                ),
    {
        let room: u32 = length_of(dst.len());
        let reply = call(self.as_ptr(), src, self.rate, room);
        overwrite_head(dst, &reply.bytes);
        status_to_result(reply.status)?;
        Ok(reply.out_len as usize)
    }
}

/// Whether `r` is what `reply` amounts to: its length, or its status as an error.
pub open spec fn coded(r: Result<usize>, reply: Coded) -> bool {
    match status_outcome(reply.status) {
        Ok(_) => r == Ok::<usize, SwitchError>(reply.out_len as usize),
        Err(e) => r == Err::<usize, SwitchError>(e),
    }
}

/// Resets a codec.
pub fn codec_reset<F>(codec: Address, call: F) -> (r: Result<()>)
    where
        F: FnOnce(Address) -> RawStatus,
    requires
        call.requires((codec,)),
    ensures
        exists|reply: RawStatus| {
            &&& #[trigger] call.ensures((codec,), reply)
            &&& r == status_outcome(reply)
        },
{
    status_to_result(call(codec))
}

/// Locks both codecs of the session.
pub fn codec_lock_full<F>(session: Session, call: F)
    where
        F: FnOnce(Address),
    requires
        call.requires((session.addr(),)),
    ensures
        call.ensures((session.addr(),), ()),
{
    call(session.as_ptr())
}

/// Unlocks both codecs of the session.
pub fn codec_unlock_full<F>(session: Session, call: F)
    where
        F: FnOnce(Address),
    requires
        call.requires((session.addr(),)),
    ensures
        call.ensures((session.addr(),), ()),
{
    call(session.as_ptr())
}

/// Decodes a video frame.
pub fn codec_decode_video<F>(codec: Address, frame: Address, call: F) -> (r: Result<()>)
    where
        F: FnOnce(Address, Address) -> RawStatus,
    requires
        call.requires((codec, frame)),
    ensures
        exists|reply: RawStatus| {
            &&& #[trigger] call.ensures((codec, frame), reply)
            &&& r == status_outcome(reply)
        },
{
    status_to_result(call(codec, frame))
}

/// Encodes a video frame.
pub fn codec_encode_video<F>(codec: Address, frame: Address, call: F) -> (r: Result<()>)
    where
        F: FnOnce(Address, Address) -> RawStatus,
    requires
        call.requires((codec, frame)),
    ensures
        exists|reply: RawStatus| {
            &&& #[trigger] call.ensures((codec, frame), reply)
            &&& r == status_outcome(reply)
        },
{
    status_to_result(call(codec, frame))
}

/// The next free codec number.
pub fn codec_next_id<F>(call: F) -> (r: u32)
    where
        F: FnOnce() -> u32,
    requires
        call.requires(()),
    ensures
        call.ensures((), r),
{
    call()
}

/// A length is handed over as it is where it fits in 32 bits, and otherwise by its low 32 bits.
pub proof fn lengths_keep_their_low_bits(len: nat)
    ensures
        len <= 0xffff_ffff ==> length_argument(len) == len,
        (len - length_argument(len)) % 0x1_0000_0000 == 0,
{
}

/// Coding gives the length of the output where it succeeded, and otherwise its own status as the error.
pub proof fn coding_gives_the_output_length(r: Result<usize>, reply: Coded)
    requires
        coded(r, reply),
    ensures
        r is Ok <==> reply.status == 0,
        r matches Ok(n) ==> n == reply.out_len,
        r matches Err(e) ==> e.0.0 == reply.status,
{
}

} // verus!
