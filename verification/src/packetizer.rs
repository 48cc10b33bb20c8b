//! Packetizers: video bitstreams in pieces that fit into packets.

use vstd::prelude::*;
use crate::handle::{allocated, allocated_at, maybe_at, Address, At, Handle, NULL};
use crate::jitterbuffer::{found, found_outcome};
use crate::status::{
    generic_error, status_outcome, status_to_result, RawStatus, Result, SwitchError,
};

verus! {

/// The framing of a video bitstream.
#[derive(Copy, Clone, PartialEq, Eq, Debug, Structural)]
pub struct BitstreamType(pub u32);

impl BitstreamType {
    pub const H264: u32 = 0;
    pub const H264_SIZED: u32 = 1;
    pub const H264_SINGLE_NALU: u32 = 2;
    pub const VP8: u32 = 3;
    pub const VP9: u32 = 4;
    pub const INVALID: u32 = 5;

    /// Wraps a raw framing.
    pub fn from_raw(raw: u32) -> (r: BitstreamType)
        ensures
            r == BitstreamType(raw),
    {
        BitstreamType(raw)
    }

    /// The raw framing.
    pub fn as_u32(self) -> (r: u32)
        ensures
            r == self.0,
    {
        self.0
    }

    /// Whether this is one of the H.264 framings.
    pub open spec fn h264(self) -> bool {
        self.0 == BitstreamType::H264 || self.0 == BitstreamType::H264_SIZED || self.0
            == BitstreamType::H264_SINGLE_NALU
    }

    /// Whether this is VP8 or VP9.
    pub open spec fn vp(self) -> bool {
        self.0 == BitstreamType::VP8 || self.0 == BitstreamType::VP9
    }

    /// Whether this is one of the H.264 framings.
    pub fn is_h264(self) -> (r: bool)
        ensures
            r == self.h264(),
    {
        self.0 == BitstreamType::H264 || self.0 == BitstreamType::H264_SIZED || self.0
            == BitstreamType::H264_SINGLE_NALU
    }

    /// Whether this is VP8 or VP9.
    pub fn is_vp(self) -> (r: bool)
        ensures
            r == self.vp(),
    {
        self.0 == BitstreamType::VP8 || self.0 == BitstreamType::VP9
    }

    /// Whether this is no framing.
    pub fn is_invalid(self) -> (r: bool)
        ensures
            r == (self.0 == BitstreamType::INVALID),
    {
        self.0 == BitstreamType::INVALID
    }

    /// The name of the framing.
    pub open spec fn shown(self) -> &'static str {
        if self.0 == BitstreamType::H264 {
            "H264"
        } else if self.0 == BitstreamType::H264_SIZED {
            "H264_SIZED"
        } else if self.0 == BitstreamType::H264_SINGLE_NALU {
            "H264_SINGLE_NALU"
        } else if self.0 == BitstreamType::VP8 {
            "VP8"
        } else if self.0 == BitstreamType::VP9 {
            "VP9"
        } else if self.0 == BitstreamType::INVALID {
            "INVALID"
        } else {
            "UNKNOWN"
        }
    }

    /// The name of the framing; one without a name is called unknown.
    pub fn name(self) -> (r: &'static str)
        ensures
            r@ == self.shown()@,
    {
        if self.0 == BitstreamType::H264 {
            "H264"
        } else if self.0 == BitstreamType::H264_SIZED {
            "H264_SIZED"
        } else if self.0 == BitstreamType::H264_SINGLE_NALU {
            "H264_SINGLE_NALU"
        } else if self.0 == BitstreamType::VP8 {
            "VP8"
        } else if self.0 == BitstreamType::VP9 {
            "VP9"
        } else if self.0 == BitstreamType::INVALID {
            "INVALID"
        } else {
            "UNKNOWN"
        }
    }

    /// The name of the framing as a string of its own.
    pub fn to_string(self) -> (r: String)
        ensures
            r@ == self.shown()@,
    {
        self.name().to_owned()
    }
}

/// A framing that has a name of its own is H.264, VP or invalid, and only one of these.
pub proof fn framings_are_classified(b: BitstreamType)
    ensures
        b.h264() ==> !b.vp() && b.0 != BitstreamType::INVALID,
        b.vp() ==> b.0 != BitstreamType::INVALID,
        b.h264() || b.vp() || b.0 == BitstreamType::INVALID <==> b.0 <= BitstreamType::INVALID,
        b.shown() == "UNKNOWN" || b.0 <= BitstreamType::INVALID,
{
}

/// A packetizer of the core.
#[derive(Debug)]
pub struct Packetizer {
    raw: Handle,
}

impl At for Packetizer {
    closed spec fn addr(&self) -> Address {
        self.raw.addr()
    }
}

impl Packetizer {
    /// Wraps an address; `None` for the null pointer.
    pub fn from_raw(raw: Address) -> (r: Option<Packetizer>)
        ensures
            maybe_at(r, raw),
    {
        match Handle::new(raw) {
            Some(raw) => Some(Packetizer { raw }),
            None => None,
        }
    }

    /// The address, which is never null.
    pub fn as_ptr(&self) -> (r: Address)
        ensures
            r == self.addr(),
            r != NULL,
    {
        self.raw.as_ptr()
    }
}

/// Whether `r` is what feeding `data` amounts to: nothing to do for empty data, else what the core
/// says of it. The length is handed over in 32 bits.
pub open spec fn fed<F>(call: F, raw: Address, data: &[u8], r: Result<()>) -> bool
    where
        F: FnOnce(Address, &[u8], u32) -> RawStatus,
{
    if data@.len() == 0 {
        r == Ok::<(), SwitchError>(())
    } else {
        exists|reply: RawStatus| #[trigger]
            call.ensures((raw, data, low_half(data@.len())), reply) && r == status_outcome(reply)
    }
}

/// The low 32 bits of a length.
pub open spec fn low_half(len: nat) -> u32 {
    (len % 0x1_0000_0000) as u32
}

impl Packetizer {
    /// Makes a packetizer for a framing, with packets of up to `slice_size` bytes. The invalid
    /// framing is refused without asking the core.
    pub fn new<F>(kind: BitstreamType, slice_size: u32, call: F) -> (r: Result<Packetizer>)
        where
            F: FnOnce(u32, u32) -> Address,
        requires
            kind.0 != BitstreamType::INVALID ==> call.requires((kind.0, slice_size)),
        ensures
            kind.0 == BitstreamType::INVALID ==> r == Err::<Packetizer, SwitchError>(
                generic_error(),
            ),
            kind.0 != BitstreamType::INVALID ==> exists|raw: Address| #[trigger]
                call.ensures((kind.0, slice_size), raw) && allocated_at(r, raw),
    {
        if kind.is_invalid() {
            return Err(SwitchError::generic());
        }
        let raw = allocated(call(kind.0, slice_size))?;
        Ok(Packetizer { raw })
    }

    /// Feeds a piece of the bitstream. Nothing is done for an empty one.
    pub fn feed<F>(&self, data: &[u8], call: F) -> (r: Result<()>)
        where
            F: FnOnce(Address, &[u8], u32) -> RawStatus,
        requires
            data@.len() > 0 ==> call.requires((self.addr(), data, low_half(data@.len()))),
        ensures
            fed(call, self.addr(), data, r),
    {
        if data.len() == 0 {
            return Ok(());
        }
        let low: u64 = (data.len() as u64) % 0x1_0000_0000;
        let n: u32 = low as u32;
        proof {
            assert(n == low_half(data@.len()));
        }
        status_to_result(call(self.as_ptr(), data, n))
    }

    /// Feeds data that belongs to the stream but does not stand in it. Nothing is done for empty
    /// data.
    pub fn feed_extradata<F>(&self, data: &[u8], call: F) -> (r: Result<()>)
        where
            F: FnOnce(Address, &[u8], u32) -> RawStatus,
        requires
            data@.len() > 0 ==> call.requires((self.addr(), data, low_half(data@.len()))),
        ensures
            fed(call, self.addr(), data, r),
    {
        self.feed(data, call)
    }

    /// Writes the next packet into the frame at `frame`: `true` where there was one, `false` where
    /// there are no more.
    pub fn read<F>(&self, frame: Address, call: F) -> (r: Result<bool>)
        where
            F: FnOnce(Address, Address) -> RawStatus,
        requires
            call.requires((self.addr(), frame)),
        ensures
            exists|status: RawStatus| #[trigger]
                call.ensures((self.addr(), frame), status) && r == found_outcome(status),
    {
        found(call(self.as_ptr(), frame))
    }
}

/// The framings are told apart by their numbers, and each is shown by its name.
pub proof fn framings_are_told_by_number(b: BitstreamType)
    ensures
        b.h264() <==> b.0 == 0 || b.0 == 1 || b.0 == 2,
        b.vp() <==> b.0 == 3 || b.0 == 4,
        b.0 == 0 ==> b.shown()@ == "H264"@,
        b.0 == 1 ==> b.shown()@ == "H264_SIZED"@,
        b.0 == 2 ==> b.shown()@ == "H264_SINGLE_NALU"@,
        b.0 == 3 ==> b.shown()@ == "VP8"@,
        b.0 == 4 ==> b.shown()@ == "VP9"@,
        b.0 == 5 ==> b.shown()@ == "INVALID"@,
        b.0 > 5 ==> b.shown()@ == "UNKNOWN"@,
{
}

/// Nothing is fed without a call. Anything else is handed over whole with its length, and its status
/// decides.
pub proof fn feeding_hands_over_all<F>(call: F, raw: Address, data: &[u8], r: Result<()>) where
    F: FnOnce(Address, &[u8], u32) -> RawStatus,

    requires
        fed(call, raw, data, r),
    ensures
        data@.len() == 0 ==> r is Ok,
        data@.len() > 0 ==> exists|n: u32, reply: RawStatus|
            #[trigger] call.ensures((raw, data, n), reply) && (data@.len() - n) % 0x1_0000_0000 == 0
                && (r is Ok <==> reply == 0) && (r matches Err(e) ==> e.0.0 == reply),
{
    if data@.len() > 0 {
        let reply = choose|reply: RawStatus| #[trigger]
            call.ensures((raw, data, low_half(data@.len())), reply) && r == status_outcome(reply);
        let n = low_half(data@.len());
        assert(call.ensures((raw, data, n), reply));
    }
}

} // verus!
