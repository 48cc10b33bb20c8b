//! Media bugs: taps on a session's media stream, and the frames that pass through them.
//!
//! A handler of type [`MediaBugHandler`] is attached to a session under a name and called for the
//! frames that the session reads and writes, until the core closes the bug.

use vstd::prelude::*;
use crate::command::{
    borrowed_cstr_to_string, c_safe, cstring, reply_text, text_is, CText, StaticCStr,
};
use crate::handle::{
    created, created_outcome, made_at, maybe_at, Address, At, Created, Handle, NULL,
};
use crate::session::Session;
use crate::status::{
    generic_error, status_outcome, status_to_result, switch_bool, switch_bool_of, RawStatus, Result,
    SwitchBool, SwitchError, SWITCH_FALSE, SWITCH_TRUE,
};

verus! {

/// What a handler wants to happen to its bug.
#[derive(Debug, Copy, Clone, PartialEq, Eq, Structural)]
pub enum MediaBugAction {
    /// Keep the bug.
    Continue,
    /// Remove the bug.
    Stop,
}

impl MediaBugAction {
    /// The answer that the core gets.
    pub fn as_switch_bool(self) -> (r: SwitchBool)
        ensures
            r == switch_bool_of(self == MediaBugAction::Continue),
    {
        match self {
            MediaBugAction::Continue => SWITCH_TRUE,
            MediaBugAction::Stop => SWITCH_FALSE,
        }
    }
}

/// A set of media bug flags.
#[derive(Debug, Copy, Clone, PartialEq, Eq, Structural)]
pub struct MediaBugFlags(pub u32);

impl MediaBugFlags {
    pub const BOTH: u32 = 0;
    pub const READ_STREAM: u32 = 1;
    pub const WRITE_STREAM: u32 = 2;
    pub const WRITE_REPLACE: u32 = 4;
    pub const READ_REPLACE: u32 = 8;
    pub const READ_PING: u32 = 16;
    pub const STEREO: u32 = 32;
    pub const ANSWER_REQUIRED: u32 = 64;
    pub const BRIDGE_REQUIRED: u32 = 128;
    pub const THREAD_LOCK: u32 = 256;
    pub const PRUNE: u32 = 512;
    pub const NO_PAUSE: u32 = 1024;
    pub const STEREO_SWAP: u32 = 2048;
    pub const LOCK: u32 = 4096;
    pub const TAP_NATIVE_READ: u32 = 8192;
    pub const TAP_NATIVE_WRITE: u32 = 16384;
    pub const ONE_ONLY: u32 = 32768;
    pub const READ_TEXT_STREAM: u32 = 33554432;

    /// The raw bits.
    pub fn bits(self) -> (r: u32)
        ensures
            r == self.0,
    {
        self.0
    }
}

impl std::ops::BitOr for MediaBugFlags {
    type Output = MediaBugFlags;

    fn bitor(self, rhs: MediaBugFlags) -> (r: MediaBugFlags) {
        MediaBugFlags(self.0 | rhs.0)
    }
}

impl vstd::std_specs::ops::BitOrSpecImpl for MediaBugFlags {
    open spec fn obeys_bitor_spec() -> bool {
        true
    }

    open spec fn bitor_req(self, rhs: MediaBugFlags) -> bool {
        true
    }

    open spec fn bitor_spec(self, rhs: MediaBugFlags) -> MediaBugFlags {
        MediaBugFlags(self.0 | rhs.0)
    }
}

impl std::ops::BitOrAssign for MediaBugFlags {
    fn bitor_assign(&mut self, rhs: MediaBugFlags)
        ensures
            *final(self) == MediaBugFlags(old(self).0 | rhs.0),
    {
        self.0 = self.0 | rhs.0;
    }
}

/// How a media bug is attached.
#[derive(Debug, Clone)]
pub struct MediaBugConfig {
    pub function: CText,
    pub target: CText,
    pub flags: MediaBugFlags,
    pub stop_time: i64,
}

impl MediaBugConfig {
    /// Names the bug and its target. The bug has no stop time.
    pub fn new<N, T>(function: N, target: T, flags: MediaBugFlags) -> (r: Result<MediaBugConfig>)
        where
            N: StaticCStr,
            T: StaticCStr,
        ensures
            function.c_form() is None || target.c_form() is None ==> r == Err::<
                MediaBugConfig,
                SwitchError,
            >(generic_error()),
            function.c_form() is Some && target.c_form() is Some ==> (r matches Ok(c) && Some(
                c.function@,
            ) == function.c_form() && Some(c.target@) == target.c_form() && c.flags == flags
                && c.stop_time == 0),
    {
        let function = function.into_static_cstr()?;
        let target = target.into_static_cstr()?;
        Ok(MediaBugConfig { function, target, flags, stop_time: 0 })
    }

    /// Sets the time, in epoch seconds, at which the core removes the bug.
    pub fn stop_time(self, stop_time: i64) -> (r: MediaBugConfig)
        ensures
            r == (MediaBugConfig { stop_time, ..self }),
    {
        MediaBugConfig { stop_time, ..self }
    }
}

/// A media bug that is attached to a session.
#[derive(Debug, Copy, Clone)]
pub struct MediaBug {
    raw: Handle,
}

impl At for MediaBug {
    closed spec fn addr(&self) -> Address {
        self.raw.addr()
    }
}

impl MediaBug {
    /// Wraps an address; `None` for the null pointer.
    pub fn from_raw(raw: Address) -> (r: Option<MediaBug>)
        ensures
            maybe_at(r, raw),
    {
        match Handle::new(raw) {
            Some(raw) => Some(MediaBug { raw }),
            None => None,
        }
    }

    /// The address, which is never null.
    pub fn as_ptr(&self) -> (r: Address)
        ensures
            r == self.addr(),
            r != NULL,
    {
        self.raw.as_ptr()
    }
}

impl MediaBug {
    /// Whether `flag` is set on the bug.
    pub fn test_flag<F>(self, flag: MediaBugFlags, call: F) -> (r: bool)
        where
            F: FnOnce(Address, u32) -> u32,
        requires
            call.requires((self.addr(), flag.0)),
        ensures
            exists|reply: u32| {
                &&& #[trigger] call.ensures((self.addr(), flag.0), reply)
                &&& r == (reply != 0)
            },
    {
        let reply: u32 = call(self.as_ptr(), flag.0);
        reply != 0
    }

    /// Sets `flag` on the bug. Returns whether the core reported it as set.
    pub fn set_flag<F>(self, flag: MediaBugFlags, call: F) -> (r: bool)
        where
            F: FnOnce(Address, u32) -> u32,
        requires
            call.requires((self.addr(), flag.0)),
        ensures
            exists|reply: u32| {
                &&& #[trigger] call.ensures((self.addr(), flag.0), reply)
                &&& r == (reply != 0)
            },
    {
        let reply: u32 = call(self.as_ptr(), flag.0);
        reply != 0
    }

    /// Clears `flag` on the bug. Returns whether the core reported it as set.
    pub fn clear_flag<F>(self, flag: MediaBugFlags, call: F) -> (r: bool)
        where
            F: FnOnce(Address, u32) -> u32,
        requires
            call.requires((self.addr(), flag.0)),
        ensures
            exists|reply: u32| {
                &&& #[trigger] call.ensures((self.addr(), flag.0), reply)
                &&& r == (reply != 0)
            },
    {
        let reply: u32 = call(self.as_ptr(), flag.0);
        reply != 0
    }

    /// The number of bytes that wait in the read tap and in the write tap.
    pub fn inuse<F>(self, call: F) -> (r: (u64, u64))
        where
            F: FnOnce(Address) -> (u64, u64),
        requires
            call.requires((self.addr(),)),
        ensures
            call.ensures((self.addr(),), r),
    {
        call(self.as_ptr())
    }

    /// The address of the handler that the bug belongs to; null where there is none.
    pub fn user_data<F>(self, call: F) -> (r: Address)
        where
            F: FnOnce(Address) -> Address,
        requires
            call.requires((self.addr(),)),
        ensures
            call.ensures((self.addr(),), r),
    {
        call(self.as_ptr())
    }

    /// A description of the bug for debugging.
    pub fn text<F>(self, call: F) -> (r: Option<String>)
        where
            F: FnOnce(Address) -> Option<Vec<u8>>,
        requires
            call.requires((self.addr(),)),
        ensures
            exists|reply: Option<Vec<u8>>| {
                &&& #[trigger] call.ensures((self.addr(),), reply)
                &&& text_is(r, reply_text(reply))
            },
    {
        borrowed_cstr_to_string(call(self.as_ptr()))
    }

    /// The address of the video ping frame.
    pub fn video_ping_frame<F>(self, call: F) -> (r: Address)
        where
            F: FnOnce(Address) -> Address,
        requires
            call.requires((self.addr(),)),
        ensures
            call.ensures((self.addr(),), r),
    {
        call(self.as_ptr())
    }

    /// Sets the number of frames that are buffered ahead.
    pub fn set_pre_buffer_framecount<F>(self, framecount: u32, call: F) -> (r: Result<()>)
        where
            F: FnOnce(Address, u32) -> RawStatus,
        requires
            call.requires((self.addr(), framecount)),
        ensures
            exists|reply: RawStatus| {
                &&& #[trigger] call.ensures((self.addr(), framecount), reply)
                &&& r == status_outcome(reply)
            },
    {
        status_to_result(call(self.as_ptr(), framecount))
    }

    /// Copies the media parameters of the bug to `mm`.
    pub fn media_params<F>(self, mm: Address, call: F)
        where
            F: FnOnce(Address, Address),
        requires
            call.requires((self.addr(), mm)),
        ensures
            call.ensures((self.addr(), mm), ()),
    {
        call(self.as_ptr(), mm)
    }

    /// Applies the media parameters at `mm` to the bug.
    pub fn set_media_params<F>(self, mm: Address, call: F)
        where
            F: FnOnce(Address, Address),
        requires
            call.requires((self.addr(), mm)),
        ensures
            call.ensures((self.addr(), mm), ()),
    {
        call(self.as_ptr(), mm)
    }

    /// Pushes a video frame into the bug; `rw` selects the direction.
    pub fn push_spy_frame<F>(self, frame: Address, rw: u32, call: F) -> (r: Result<()>)
        where
            F: FnOnce(Address, Address, u32) -> RawStatus,
        requires
            call.requires((self.addr(), frame, rw)),
        ensures
            exists|reply: RawStatus| {
                &&& #[trigger] call.ensures((self.addr(), frame, rw), reply)
                &&& r == status_outcome(reply)
            },
    {
        status_to_result(call(self.as_ptr(), frame, rw))
    }

    /// Patches an image into the bug; `rw` selects the direction.
    pub fn patch_spy_frame<F>(self, img: Address, rw: u32, call: F) -> (r: Result<()>)
        where
            F: FnOnce(Address, Address, u32) -> RawStatus,
        requires
            call.requires((self.addr(), img, rw)),
        ensures
            exists|reply: RawStatus| {
                &&& #[trigger] call.ensures((self.addr(), img, rw), reply)
                &&& r == status_outcome(reply)
            },
    {
        status_to_result(call(self.as_ptr(), img, rw))
    }

    /// Closes the bug; `destroy` frees it, else it is only detached. All copies of the handle are
    /// stale afterwards.
    pub fn close<F>(self, destroy: bool, call: F) -> (r: Result<()>)
        where
            F: FnOnce(Address, SwitchBool) -> RawStatus,
        requires
            call.requires((self.addr(), switch_bool_of(destroy))),
        ensures
            exists|reply: RawStatus| {
                &&& #[trigger] call.ensures((self.addr(), switch_bool_of(destroy)), reply)
                &&& r == status_outcome(reply)
            },
    {
        status_to_result(call(self.as_ptr(), switch_bool(destroy)))
    }
}

/// The fields of a media frame (`switch_frame_t`) that the library reads and writes.
#[derive(Debug, Copy, Clone, PartialEq, Eq, Structural)]
pub struct FrameFields {
    /// Where the payload starts; null where the frame has none.
    pub data: Address,
    /// The number of payload bytes.
    pub datalen: u32,
    /// The number of bytes that fit at `data`.
    pub buflen: u32,
    /// The number of samples that the codec puts into one frame.
    pub samples: u32,
    /// The sample rate.
    pub rate: u32,
    /// The number of channels.
    pub channels: u32,
    /// The codec of the frame.
    pub codec: Address,
}

impl FrameFields {
    /// The number of payload bytes that can be reached: none where there is no data.
    pub open spec fn payload_len(self) -> nat {
        if self.data == NULL {
            0
        } else {
            self.datalen as nat
        }
    }

    /// Whether the payload can be viewed as 16-bit samples: there is one, its length is even and
    /// it starts at an even address.
    pub open spec fn pcm_viewable(self) -> bool {
        self.payload_len() > 0 && self.datalen % 2 == 0 && self.data % 2 == 0
    }

    /// The number of 16-bit samples that one frame of output holds: as many as the codec expects,
    /// but no more than fit into the buffer.
    pub open spec fn output_samples(self) -> nat {
        let fit = self.buflen as nat / 2;
        if self.samples < fit {
            self.samples as nat
        } else {
            fit
        }
    }

    /// Whether a frame of 16-bit output can be written: there is a buffer at an even address and
    /// room for at least one sample.
    pub open spec fn output_ready(self) -> bool {
        self.data != NULL && self.output_samples() > 0 && self.data % 2 == 0
    }
}

/// A frame as the core hands it over: its address, its fields, and the memory at `data`.
#[derive(Debug, Copy, Clone)]
pub struct FrameReply<'m> {
    pub raw: Address,
    pub fields: FrameFields,
    pub memory: &'m [u8],
}

/// A frame that may be written, as the core hands it over. What is set in `fields` is meant for the
/// core's frame.
#[derive(Debug)]
pub struct FrameReplyMut<'m> {
    pub raw: Address,
    pub fields: &'m mut FrameFields,
    pub memory: &'m mut [u8],
}

/// A frame that can be read for the time of one callback.
#[derive(Debug, Copy, Clone)]
pub struct MediaFrame<'a> {
    raw: Handle,
    fields: FrameFields,
    memory: &'a [u8],
}

impl<'a> At for MediaFrame<'a> {
    closed spec fn addr(&self) -> Address {
        self.raw.addr()
    }
}

impl<'a> MediaFrame<'a> {
    /// The frame's fields.
    pub closed spec fn fields(&self) -> FrameFields {
        self.fields
    }

    /// The memory at the frame's data pointer.
    pub closed spec fn memory(&self) -> Seq<u8> {
        self.memory@
    }

    /// The payload.
    pub open spec fn payload(&self) -> Seq<u8> {
        self.memory().take(self.fields().payload_len() as int)
    }

    /// Wraps a frame; `None` where the address is null.
    pub fn from_raw(reply: FrameReply<'a>) -> (r: Option<MediaFrame<'a>>)
        ensures
            maybe_at(r, reply.raw),
            r matches Some(f) ==> f.fields() == reply.fields && f.memory() == reply.memory@,
    {
        match Handle::new(reply.raw) {
            Some(raw) => Some(MediaFrame { raw, fields: reply.fields, memory: reply.memory }),
            None => None,
        }
    }

    /// The frame's address, which is never null.
    pub fn as_ptr(self) -> (r: Address)
        ensures
            r == self.addr(),
            r != NULL,
    {
        self.raw.as_ptr()
    }

    /// The number of payload bytes that the frame reports.
    pub fn data_len(self) -> (r: usize)
        ensures
            r == self.fields().datalen,
    {
        self.fields.datalen as usize
    }

    /// The number of samples.
    pub fn samples(self) -> (r: u32)
        ensures
            r == self.fields().samples,
    {
        self.fields.samples
    }

    /// The sample rate.
    pub fn rate(self) -> (r: u32)
        ensures
            r == self.fields().rate,
    {
        self.fields.rate
    }

    /// The number of channels.
    pub fn channels(self) -> (r: u32)
        ensures
            r == self.fields().channels,
    {
        self.fields.channels
    }

    /// The payload: empty where the frame has no data.
    pub fn bytes(self) -> (r: &'a [u8])
        requires
            self.fields().payload_len() <= self.memory().len(),
        ensures
            r@ == self.payload(),
    {
        let n: usize = if self.fields.data == NULL {
            0
        } else {
            self.fields.datalen as usize
        };
        let (head, _) = self.memory.split_at(n);
        proof {
            assert(head@ =~= self.payload());
        }
        head
    }

    /// The payload as the bytes of 16-bit samples in the machine's own order. `None` where there is
    /// no payload, where its length is odd and where it does not start at an even address.
    pub fn pcm_i16(self) -> (r: Option<&'a [u8]>)
        requires
            self.fields().payload_len() <= self.memory().len(),
        ensures
            r is Some <==> self.fields().pcm_viewable(),
            r matches Some(s) ==> s@ == self.payload() && s@.len() % 2 == 0,
    {
        let bytes = self.bytes();
        if bytes.len() == 0 || bytes.len() % 2 != 0 || self.fields.data % 2 != 0 {
            return None;
        }
        Some(bytes)
    }
}

/// A frame that can be read and written for the time of one callback.
#[derive(Debug)]
pub struct MediaFrameMut<'a> {
    raw: Handle,
    fields: &'a mut FrameFields,
    memory: &'a mut [u8],
}

impl<'a> At for MediaFrameMut<'a> {
    closed spec fn addr(&self) -> Address {
        self.raw.addr()
    }
}

impl<'a> MediaFrameMut<'a> {
    /// The frame's fields.
    pub closed spec fn fields(&self) -> FrameFields {
        *self.fields
    }

    /// The memory at the frame's data pointer.
    pub closed spec fn memory(&self) -> Seq<u8> {
        self.memory@
    }

    /// Wraps a frame; `None` where the address is null.
    pub fn from_raw(reply: FrameReplyMut<'a>) -> (r: Option<MediaFrameMut<'a>>)
        ensures
            maybe_at(r, reply.raw),
            r matches Some(f) ==> f.fields() == *old(reply.fields) && f.memory() == old(
                reply.memory,
            )@,
    {
        match Handle::new(reply.raw) {
            Some(raw) => Some(MediaFrameMut { raw, fields: reply.fields, memory: reply.memory }),
            None => None,
        }
    }

    /// The frame's address, which is never null.
    pub fn as_ptr(&self) -> (r: Address)
        ensures
            r == self.addr(),
            r != NULL,
    {
        self.raw.as_ptr()
    }

    /// The fields as they stand.
    pub fn current_fields(&self) -> (r: FrameFields)
        ensures
            r == self.fields(),
    {
        *self.fields
    }

    /// The frame for reading.
    pub fn as_frame(&self) -> (r: MediaFrame<'_>)
        ensures
            r.addr() == self.addr(),
            r.fields() == self.fields(),
            r.memory() == self.memory(),
    {
        MediaFrame { raw: self.raw, fields: *self.fields, memory: &*self.memory }
    }

    /// The payload for writing: empty where the frame has no data. The memory behind it keeps its
    /// contents.
    pub fn bytes_mut(&mut self) -> (r: &mut [u8])
        requires
            old(self).fields().payload_len() <= old(self).memory().len(),
        ensures
            r@ == old(self).memory().take(old(self).fields().payload_len() as int),
            final(r)@.len() == r@.len() ==> final(self).memory() == final(r)@ + old(
                self,
            ).memory().skip(r@.len() as int),
            final(self).fields() == old(self).fields(),
            final(self).addr() == old(self).addr(),
    {
        let n: usize = if self.fields.data == NULL {
            0
        } else {
            self.fields.datalen as usize
        };
        let (head, _) = self.memory.split_at_mut(n);
        head
    }

    /// The payload for writing, as the bytes of 16-bit samples in the machine's own order. `None`
    /// where there is no payload, where its length is odd and where it does not start at an even
    /// address.
    pub fn pcm_i16_mut(&mut self) -> (r: Option<&mut [u8]>)
        requires
            old(self).fields().payload_len() <= old(self).memory().len(),
        ensures
            r is Some <==> old(self).fields().pcm_viewable(),
            r is None ==> *final(self) == *old(self),
            r matches Some(s) ==> {
                &&& s@ == old(self).memory().take(old(self).fields().payload_len() as int)
                &&& s@.len() % 2 == 0
                &&& final(s)@.len() == s@.len() ==> final(self).memory() == final(s)@ + old(
                    self,
                ).memory().skip(s@.len() as int)
                &&& final(self).fields() == old(self).fields()
                &&& final(self).addr() == old(self).addr()
            },
    {
        let f = *self.fields;
        if f.data == NULL || f.datalen == 0 || f.datalen % 2 != 0 || f.data % 2 != 0 {
            return None;
        }
        Some(self.bytes_mut())
    }

    /// The number of samples that the codec expects in the frame.
    pub fn samples_field(&self) -> (r: u32)
        ensures
            r == self.fields().samples,
    {
        self.fields.samples
    }

    /// The capacity of the data buffer in bytes.
    pub fn buflen_field(&self) -> (r: u32)
        ensures
            r == self.fields().buflen,
    {
        self.fields.buflen
    }

    /// The number of payload bytes.
    pub fn datalen_field(&self) -> (r: u32)
        ensures
            r == self.fields().datalen,
    {
        self.fields.datalen
    }

    /// Sets the number of payload bytes.
    pub fn set_datalen(&mut self, bytes: u32)
        ensures
            final(self).fields() == (FrameFields { datalen: bytes, ..old(self).fields() }),
            final(self).memory() == old(self).memory(),
            final(self).addr() == old(self).addr(),
    {
        self.fields.datalen = bytes;
    }

    /// Sets the number of samples.
    pub fn set_samples(&mut self, samples: u32)
        ensures
            final(self).fields() == (FrameFields { samples, ..old(self).fields() }),
            final(self).memory() == old(self).memory(),
            final(self).addr() == old(self).addr(),
    {
        self.fields.samples = samples;
    }

    /// The room for one frame of 16-bit output, as the bytes of the samples: as many samples as
    /// the codec expects, but no more than fit into the buffer. The payload length is set to it.
    ///
    /// `None`, with the frame unchanged, where there is no buffer, where not one sample is expected
    /// or fits, and where the buffer does not start at an even address.
    pub fn pcm_i16_output(&mut self) -> (r: Option<&mut [u8]>)
        requires
            old(self).fields().data != NULL ==> old(self).fields().buflen <= old(
                self,
            ).memory().len(),
        ensures
            r is Some <==> old(self).fields().output_ready(),
            r is None ==> *final(self) == *old(self),
            r is Some <==> {
                &&& old(self).fields().data != 0
                &&& old(self).fields().data % 2 == 0
                &&& old(self).fields().samples > 0
                &&& old(self).fields().buflen >= 2
            },
            r matches Some(s) ==> {
                &&& s@.len() % 2 == 0
                &&& s@.len() <= 2 * old(self).fields().samples
                &&& s@.len() <= old(self).fields().buflen
                &&& s@.len() == 2 * old(self).fields().samples || s@.len() + 2
                    > old(self).fields().buflen
                &&& final(self).fields().datalen == s@.len()
                &&& s@ == old(self).memory().take((2 * old(self).fields().output_samples()) as int)
                &&& final(s)@.len() == s@.len() ==> final(self).memory() == final(s)@ + old(
                    self,
                ).memory().skip(s@.len() as int)
                &&& final(self).fields() == (FrameFields {
                    datalen: (2 * old(self).fields().output_samples()) as u32,
                    ..old(self).fields()
                })
                &&& final(self).addr() == old(self).addr()
            },
    {
        let f = *self.fields;
        if f.data == NULL {
            return None;
        }
        let fit: u32 = f.buflen / 2;
        let count: u32 = if f.samples < fit {
            f.samples
        } else {
            fit
        };
        if count == 0 || f.data % 2 != 0 {
            return None;
        }
        self.fields.datalen = count * 2;
        let n: usize = (count * 2) as usize;
        let (head, _) = self.memory.split_at_mut(n);
        Some(head)
    }
}

/// What [`MediaFrameMut::pcm_i16_output`] prepares can be read back: the payload lies within the
/// buffer and is viewable as exactly the samples that were asked for.
pub proof fn output_is_readable(before: FrameFields, after: FrameFields)
    requires
        before.output_ready(),
        after == (FrameFields { datalen: (2 * before.output_samples()) as u32, ..before }),
    ensures
        after.datalen <= after.buflen,
        after.pcm_viewable(),
        after.payload_len() == 2 * before.output_samples(),
        after.output_samples() == before.output_samples(),
{
}

/// The bug that a callback is running for.
#[derive(Debug)]
pub struct MediaBugContext {
    raw: Handle,
}

impl At for MediaBugContext {
    closed spec fn addr(&self) -> Address {
        self.raw.addr()
    }
}

impl MediaBugContext {
    /// Wraps an address; `None` for the null pointer.
    pub fn from_raw(raw: Address) -> (r: Option<MediaBugContext>)
        ensures
            maybe_at(r, raw),
    {
        match Handle::new(raw) {
            Some(raw) => Some(MediaBugContext { raw }),
            None => None,
        }
    }

    /// The address, which is never null.
    pub fn as_ptr(&self) -> (r: Address)
        ensures
            r == self.addr(),
            r != NULL,
    {
        self.raw.as_ptr()
    }
}

impl MediaBugContext {
    /// The session that the bug is attached to; `None` once it is detached.
    pub fn session<F>(&self, call: F) -> (r: Option<Session>)
        where
            F: FnOnce(Address) -> Address,
        requires
            call.requires((self.addr(),)),
        ensures
            exists|reply: Address| {
                &&& #[trigger] call.ensures((self.addr(),), reply)
                &&& maybe_at(r, reply)
            },
    {
        Session::from_raw(call(self.as_ptr()))
    }

    /// The frame that was just read, in the codec of the line.
    pub fn native_read_frame<'m, F>(&self, call: F) -> (r: Option<MediaFrame<'m>>)
        where
            F: FnOnce(Address) -> FrameReply<'m>,
        requires
            call.requires((self.addr(),)),
        ensures
            exists|reply: FrameReply<'m>| #[trigger]
                call.ensures((self.addr(),), reply) && frame_at(r, reply),
    {
        MediaFrame::from_raw(call(self.as_ptr()))
    }

    /// The frame that is about to be written, in the codec of the line.
    pub fn native_write_frame<'m, F>(&self, call: F) -> (r: Option<MediaFrame<'m>>)
        where
            F: FnOnce(Address) -> FrameReply<'m>,
        requires
            call.requires((self.addr(),)),
        ensures
            exists|reply: FrameReply<'m>| #[trigger]
                call.ensures((self.addr(),), reply) && frame_at(r, reply),
    {
        MediaFrame::from_raw(call(self.as_ptr()))
    }

    /// The frame that replaces what was read.
    pub fn read_replace_frame<'m, F>(&mut self, call: F) -> (r: Option<MediaFrameMut<'m>>)
        where
            F: FnOnce(Address) -> FrameReplyMut<'m>,
        requires
            call.requires((old(self).addr(),)),
        ensures
            *final(self) == *old(self),
            exists|reply: FrameReplyMut<'m>| #[trigger]
                call.ensures((old(self).addr(),), reply) && frame_mut_at(r, reply),
    {
        MediaFrameMut::from_raw(call(self.as_ptr()))
    }

    /// The frame that replaces what is written.
    pub fn write_replace_frame<'m, F>(&mut self, call: F) -> (r: Option<MediaFrameMut<'m>>)
        where
            F: FnOnce(Address) -> FrameReplyMut<'m>,
        requires
            call.requires((old(self).addr(),)),
        ensures
            *final(self) == *old(self),
            exists|reply: FrameReplyMut<'m>| #[trigger]
                call.ensures((old(self).addr(),), reply) && frame_mut_at(r, reply),
    {
        MediaFrameMut::from_raw(call(self.as_ptr()))
    }

    /// Makes `frame` the one that replaces what was read.
    pub fn set_read_replace_frame<F>(&mut self, frame: &mut MediaFrameMut<'_>, call: F)
        where
            F: FnOnce(Address, Address),
        requires
            call.requires((old(self).addr(), old(frame).addr())),
        ensures
            *final(self) == *old(self),
            *final(frame) == *old(frame),
            call.ensures((old(self).addr(), old(frame).addr()), ()),
    {
        call(self.as_ptr(), frame.as_ptr())
    }

    /// Makes `frame` the one that replaces what is written.
    pub fn set_write_replace_frame<F>(&mut self, frame: &mut MediaFrameMut<'_>, call: F)
        where
            F: FnOnce(Address, Address),
        requires
            call.requires((old(self).addr(), old(frame).addr())),
        ensures
            *final(self) == *old(self),
            *final(frame) == *old(frame),
            call.ensures((old(self).addr(), old(frame).addr()), ()),
    {
        call(self.as_ptr(), frame.as_ptr())
    }

    /// Drops what is buffered in the bug.
    pub fn flush<F>(&mut self, call: F)
        where
            F: FnOnce(Address),
        requires
            call.requires((old(self).addr(),)),
        ensures
            *final(self) == *old(self),
            call.ensures((old(self).addr(),), ()),
    {
        call(self.as_ptr())
    }

    /// Reads buffered media into the frame at `frame`; `fill` asks for silence where media is missing.
    pub fn read_into<F>(&mut self, frame: Address, fill: bool, call: F) -> (r: Result<()>)
        where
            F: FnOnce(Address, Address, SwitchBool) -> RawStatus,
        requires
            call.requires((old(self).addr(), frame, switch_bool_of(fill))),
        ensures
            *final(self) == *old(self),
            exists|reply: RawStatus| #[trigger]
                call.ensures((old(self).addr(), frame, switch_bool_of(fill)), reply) && r
                    == status_outcome(reply),
    {
        status_to_result(call(self.as_ptr(), frame, switch_bool(fill)))
    }
}

/// Whether `r` is the frame of `reply`, absent exactly where its address is null.
pub open spec fn frame_at(r: Option<MediaFrame<'_>>, reply: FrameReply<'_>) -> bool {
    &&& maybe_at(r, reply.raw)
    &&& r matches Some(f) ==> f.fields() == reply.fields && f.memory() == reply.memory@
}

/// Whether `r` is the writable frame of `reply`, absent exactly where its address is null.
pub open spec fn frame_mut_at(r: Option<MediaFrameMut<'_>>, reply: FrameReplyMut<'_>) -> bool {
    &&& maybe_at(r, reply.raw)
    &&& r matches Some(f) ==> f.fields() == *reply.fields && f.memory() == reply.memory@
}

/// What is called for the events of a media bug. Every method has a default that keeps the bug.
pub trait MediaBugHandler: Sized {
    /// The bug was attached.
    fn on_init(&mut self, ctx: &mut MediaBugContext) -> (action: MediaBugAction)
        default_ensures
            action == MediaBugAction::Continue,
            *final(self) == *old(self),
            *final(ctx) == *old(ctx),
    {
        MediaBugAction::Continue
    }

    /// A frame was read.
    fn on_read(&mut self, ctx: &mut MediaBugContext, frame: MediaFrame<'_>) -> (action:
        MediaBugAction)
        default_ensures
            action == MediaBugAction::Continue,
            *final(self) == *old(self),
            *final(ctx) == *old(ctx),
    {
        MediaBugAction::Continue
    }

    /// A frame is about to be written.
    fn on_write(&mut self, ctx: &mut MediaBugContext, frame: MediaFrame<'_>) -> (action:
        MediaBugAction)
        default_ensures
            action == MediaBugAction::Continue,
            *final(self) == *old(self),
            *final(ctx) == *old(ctx),
    {
        MediaBugAction::Continue
    }

    /// The frame that was read can be replaced.
    fn on_read_replace(&mut self, ctx: &mut MediaBugContext, frame: MediaFrameMut<'_>) -> (action:
        MediaBugAction)
        default_ensures
            action == MediaBugAction::Continue,
            *final(self) == *old(self),
            *final(ctx) == *old(ctx),
    {
        MediaBugAction::Continue
    }

    /// The frame that is written can be replaced.
    fn on_write_replace(&mut self, ctx: &mut MediaBugContext, frame: MediaFrameMut<'_>) -> (action:
        MediaBugAction)
        default_ensures
            action == MediaBugAction::Continue,
            *final(self) == *old(self),
            *final(ctx) == *old(ctx),
    {
        MediaBugAction::Continue
    }

    /// The bug is being closed; nothing is called after this.
    fn on_close(&mut self, ctx: &mut MediaBugContext)
        default_ensures
            *final(self) == *old(self),
            *final(ctx) == *old(ctx),
    {
    }
}

/// The event codes of a media bug callback.
pub const ABC_TYPE_INIT: u32 = 0;
pub const ABC_TYPE_READ: u32 = 1;
pub const ABC_TYPE_WRITE: u32 = 2;
pub const ABC_TYPE_WRITE_REPLACE: u32 = 3;
pub const ABC_TYPE_READ_REPLACE: u32 = 4;
pub const ABC_TYPE_CLOSE: u32 = 8;

/// What a media bug callback has to do.
#[derive(Debug, Copy, Clone, PartialEq, Eq, Structural)]
pub enum BugStep {
    /// Nothing: the core is told to keep the bug.
    Keep,
    /// Call `on_close`, then free the handler.
    Close,
    /// Call `on_init`.
    Init,
    /// Fetch the native read frame and call `on_read` with it.
    Read,
    /// Fetch the native write frame and call `on_write` with it.
    Write,
    /// Fetch the read replacement frame and call `on_read_replace` with it.
    ReadReplace,
    /// Fetch the write replacement frame and call `on_write_replace` with it.
    WriteReplace,
}

/// What the callback has to do for an event code.
pub open spec fn bug_step(callback_type: u32) -> BugStep {
    if callback_type == ABC_TYPE_CLOSE {
        BugStep::Close
    } else if callback_type == ABC_TYPE_INIT {
        BugStep::Init
    } else if callback_type == ABC_TYPE_READ {
        BugStep::Read
    } else if callback_type == ABC_TYPE_WRITE {
        BugStep::Write
    } else if callback_type == ABC_TYPE_READ_REPLACE {
        BugStep::ReadReplace
    } else if callback_type == ABC_TYPE_WRITE_REPLACE {
        BugStep::WriteReplace
    } else {
        BugStep::Keep
    }
}

/// Decides what a media bug callback has to do. A callback without a handler or without a bug does
/// nothing, whatever the event.
pub fn media_bug_trampoline(bug: Address, user_data: Address, callback_type: u32) -> (r: BugStep)
    ensures
        user_data == NULL || bug == NULL ==> r == BugStep::Keep,
        user_data != NULL && bug != NULL ==> r == bug_step(callback_type),
        r == BugStep::Close <==> user_data != NULL && bug != NULL && callback_type
            == ABC_TYPE_CLOSE,
{
    if user_data == NULL || bug == NULL {
        return BugStep::Keep;
    }
    if callback_type == ABC_TYPE_CLOSE {
        BugStep::Close
    } else if callback_type == ABC_TYPE_INIT {
        BugStep::Init
    } else if callback_type == ABC_TYPE_READ {
        BugStep::Read
    } else if callback_type == ABC_TYPE_WRITE {
        BugStep::Write
    } else if callback_type == ABC_TYPE_READ_REPLACE {
        BugStep::ReadReplace
    } else if callback_type == ABC_TYPE_WRITE_REPLACE {
        BugStep::WriteReplace
    } else {
        BugStep::Keep
    }
}

/// The frame that belongs to an event of a media bug.
#[derive(Debug)]
pub enum BugEvent<'m> {
    Init,
    Read(FrameReply<'m>),
    Write(FrameReply<'m>),
    ReadReplace(FrameReplyMut<'m>),
    WriteReplace(FrameReplyMut<'m>),
    Other,
}

impl<'m> BugEvent<'m> {
    /// Whether the handler is called for the event: always on attaching, and for a frame event
    /// where there is a frame.
    pub open spec fn reaches_handler(&self) -> bool {
        match *self {
            BugEvent::Init => true,
            BugEvent::Read(f) => f.raw != NULL,
            BugEvent::Write(f) => f.raw != NULL,
            BugEvent::ReadReplace(f) => f.raw != NULL,
            BugEvent::WriteReplace(f) => f.raw != NULL,
            BugEvent::Other => false,
        }
    }
}

/// What a handler is called with: the method, and the frame that it is handed.
pub enum Delivery<'m> {
    Init,
    Read(MediaFrame<'m>),
    Write(MediaFrame<'m>),
    ReadReplace(MediaFrameMut<'m>),
    WriteReplace(MediaFrameMut<'m>),
    Nothing,
}

/// Whether `d` is what an event delivers: the method that belongs to it, with its frame. A frame event
/// without a frame delivers nothing.
pub open spec fn delivers(event: BugEvent<'_>, d: Delivery<'_>) -> bool {
    match event {
        BugEvent::Init => d is Init,
        BugEvent::Read(reply) => if reply.raw == NULL {
            d is Nothing
        } else {
            d matches Delivery::Read(f) && frame_at(Some(f), reply)
        },
        BugEvent::Write(reply) => if reply.raw == NULL {
            d is Nothing
        } else {
            d matches Delivery::Write(f) && frame_at(Some(f), reply)
        },
        BugEvent::ReadReplace(reply) => if reply.raw == NULL {
            d is Nothing
        } else {
            d matches Delivery::ReadReplace(f) && frame_mut_at(Some(f), reply)
        },
        BugEvent::WriteReplace(reply) => if reply.raw == NULL {
            d is Nothing
        } else {
            d matches Delivery::WriteReplace(f) && frame_mut_at(Some(f), reply)
        },
        BugEvent::Other => d is Nothing,
    }
}

impl<'m> BugEvent<'m> {
    /// What the event delivers to a handler.
    pub fn delivery(self) -> (d: Delivery<'m>)
        ensures
            delivers(self, d),
    {
        match self {
            BugEvent::Init => Delivery::Init,
            BugEvent::Read(reply) => match MediaFrame::from_raw(reply) {
                Some(frame) => Delivery::Read(frame),
                None => Delivery::Nothing,
            },
            BugEvent::Write(reply) => match MediaFrame::from_raw(reply) {
                Some(frame) => Delivery::Write(frame),
                None => Delivery::Nothing,
            },
            BugEvent::ReadReplace(reply) => match MediaFrameMut::from_raw(reply) {
                Some(frame) => Delivery::ReadReplace(frame),
                None => Delivery::Nothing,
            },
            BugEvent::WriteReplace(reply) => match MediaFrameMut::from_raw(reply) {
                Some(frame) => Delivery::WriteReplace(frame),
                None => Delivery::Nothing,
            },
            BugEvent::Other => Delivery::Nothing,
        }
    }
}

/// A handler and the bug that it is called for.
pub struct MediaBugDispatch {
    pub ctx: MediaBugContext,
}

impl MediaBugDispatch {
    /// Calls the handler method that belongs to the event, with what [`BugEvent::delivery`] hands it.
    /// Its action is returned. Where nothing is delivered, the handler is not called and the bug is
    /// kept.
    pub fn run<H>(&mut self, handler: &mut H, event: BugEvent<'_>) -> (action: MediaBugAction)
        where
            H: MediaBugHandler,
        ensures
            !event.reaches_handler() ==> action == MediaBugAction::Continue && *final(handler)
                == *old(handler) && *final(self) == *old(self),
            event is Init ==> exists|h: &mut H, c: &mut MediaBugContext| #[trigger]
                call_ensures(H::on_init, (h, c), action) && *h == *old(handler) && *final(h)
                    == *final(handler) && *c == old(self).ctx && *final(c) == final(self).ctx,
            event matches BugEvent::Read(reply) ==> (reply.raw != NULL ==> exists|
                h: &mut H,
                c: &mut MediaBugContext,
                f: MediaFrame<'_>,
            |
                #[trigger] call_ensures(H::on_read, (h, c, f), action) && frame_at(Some(f), reply)
                    && *h
                    == *old(handler) && *final(h) == *final(handler) && *c == old(self).ctx &&
                        *final(c)
                    == final(self).ctx),
            event matches BugEvent::Write(reply) ==> (reply.raw != NULL ==> exists|
                h: &mut H,
                c: &mut MediaBugContext,
                f: MediaFrame<'_>,
            |
                #[trigger] call_ensures(H::on_write, (h, c, f), action) && frame_at(Some(f), reply)
                    && *h
                    == *old(handler) && *final(h) == *final(handler) && *c == old(self).ctx &&
                        *final(c)
                    == final(self).ctx),
            event matches BugEvent::ReadReplace(reply) ==> (reply.raw != NULL ==> exists|
                h: &mut H,
                c: &mut MediaBugContext,
                f: MediaFrameMut<'_>,
            |
                #[trigger] call_ensures(H::on_read_replace, (h, c, f), action) &&
                    frame_mut_at(Some(f), reply) && *h
                    == *old(handler) && *final(h) == *final(handler) && *c == old(self).ctx &&
                        *final(c)
                    == final(self).ctx),
            event matches BugEvent::WriteReplace(reply) ==> (reply.raw != NULL ==> exists|
                h: &mut H,
                c: &mut MediaBugContext,
                f: MediaFrameMut<'_>,
            |
                #[trigger] call_ensures(H::on_write_replace, (h, c, f), action) &&
                    frame_mut_at(Some(f), reply) && *h
                    == *old(handler) && *final(h) == *final(handler) && *c == old(self).ctx &&
                        *final(c)
                    == final(self).ctx),
    {
        match event.delivery() {
            Delivery::Init => handler.on_init(&mut self.ctx),
            Delivery::Read(frame) => handler.on_read(&mut self.ctx, frame),
            Delivery::Write(frame) => handler.on_write(&mut self.ctx, frame),
            Delivery::ReadReplace(frame) => handler.on_read_replace(&mut self.ctx, frame),
            Delivery::WriteReplace(frame) => handler.on_write_replace(&mut self.ctx, frame),
            Delivery::Nothing => MediaBugAction::Continue,
        }
    }
}

/// What the core is told after a callback: the handler's wish, or to remove the bug where the
/// handler panicked, which `None` stands for. A panic is logged.
pub fn callback_result<L>(result: Option<MediaBugAction>, log_panic: L) -> (r: SwitchBool)
    where
        L: FnOnce(),
    requires
        result is None ==> log_panic.requires(()),
    ensures
        r == switch_bool_of(result == Some(MediaBugAction::Continue)),
        result is None ==> log_panic.ensures((), ()),
{
    match result {
        Some(action) => action.as_switch_bool(),
        None => {
            log_panic();
            SWITCH_FALSE
        },
    }
}

/// Attaches a media bug. `state` is the address of the boxed handler, `attach` the call into the core
/// and `reclaim` frees the handler. The core takes the handler over only where it returns success
/// and a bug; in every other case the handler is freed here.
pub fn attach_media_bug<A, R>(
    session: Session,
    config: &MediaBugConfig,
    state: Address,
    attach: A,
    reclaim: R,
) -> (r: Result<MediaBug>)
    where
        A: FnOnce(Address, &CText, &CText, Address, i64, u32) -> Created,
        R: FnOnce(Address),
    requires
        attach.requires(
            (
                session.addr(),
                &config.function,
                &config.target,
                state,
                config.stop_time,
                config.flags.0,
            ),
        ),
        forall|reply: Created| #[trigger]
            attach.ensures(
                (
                    session.addr(),
                    &config.function,
                    &config.target,
                    state,
                    config.stop_time,
                    config.flags.0,
                ),
                reply,
            ) && created_outcome(reply) is Err ==> reclaim.requires((state,)),
    ensures
        exists|reply: Created| #[trigger]
            attach.ensures(
                (
                    session.addr(),
                    &config.function,
                    &config.target,
                    state,
                    config.stop_time,
                    config.flags.0,
                ),
                reply,
            ) && made_at(r, reply),
        r is Err ==> reclaim.ensures((state,), ()),
{
    let reply = attach(
        session.as_ptr(),
        &config.function,
        &config.target,
        state,
        config.stop_time,
        config.flags.bits(),
    );
    match created(reply) {
        Ok(raw) => Ok(MediaBug { raw }),
        Err(e) => {
            reclaim(state);
            Err(e)
        },
    }
}

/// Pauses every media bug of the session.
pub fn pause_media_bugs<F>(session: Session, call: F)
    where
        F: FnOnce(Address),
    requires
        call.requires((session.addr(),)),
    ensures
        call.ensures((session.addr(),), ()),
{
    call(session.as_ptr())
}

/// Resumes every paused media bug of the session.
pub fn resume_media_bugs<F>(session: Session, call: F)
    where
        F: FnOnce(Address),
    requires
        call.requires((session.addr(),)),
    ensures
        call.ensures((session.addr(),), ()),
{
    call(session.as_ptr())
}

/// Removes the bugs of the session that are marked for pruning. Returns their number.
pub fn prune_media_bugs<F>(session: Session, call: F) -> (r: u32)
    where
        F: FnOnce(Address) -> u32,
    requires
        call.requires((session.addr(),)),
    ensures
        call.ensures((session.addr(),), r),
{
    call(session.as_ptr())
}

/// Drops what is buffered in every media bug of the session.
pub fn flush_all_media_bugs<F>(session: Session, call: F) -> (r: Result<()>)
    where
        F: FnOnce(Address) -> RawStatus,
    requires
        call.requires((session.addr(),)),
    ensures
        exists|reply: RawStatus| {
            &&& #[trigger] call.ensures((session.addr(),), reply)
            &&& r == status_outcome(reply)
        },
{
    status_to_result(call(session.as_ptr()))
}

/// The number of bugs of the session that were attached under `function`.
pub fn count_media_bugs<F>(session: Session, function: &str, call: F) -> (r: Result<u32>)
    where
        F: FnOnce(Address, &CText) -> u32,
    requires
        c_safe(function@) ==> forall|function_c: &CText|
            #![trigger call.requires((session.addr(), function_c))]
            function_c.spells(function@) ==> call.requires((session.addr(), function_c)),
    ensures
        !c_safe(function@) ==> r == Err::<u32, SwitchError>(generic_error()),
        c_safe(function@) ==> exists|function_c: &CText, reply: u32| {
            &&& function_c.spells(function@)
            &&& #[trigger] call.ensures((session.addr(), function_c), reply)
            &&& r matches Ok(v) && v == reply
        },
{
    let function = cstring(function)?;
    let reply: u32 = call(session.as_ptr(), &function);
    Ok(reply)
}

/// Removes every bug of the session that was attached under `function`.
pub fn remove_media_bugs_by_function<F>(
    session: Session,
    function: &str,
    call: F,
) -> (r: Result<()>)
    where
        F: FnOnce(Address, &CText) -> RawStatus,
    requires
        c_safe(function@) ==> forall|function_c: &CText|
            #![trigger call.requires((session.addr(), function_c))]
            function_c.spells(function@) ==> call.requires((session.addr(), function_c)),
    ensures
        !c_safe(function@) ==> r == Err::<(), SwitchError>(generic_error()),
        c_safe(function@) ==> exists|function_c: &CText, reply: RawStatus| {
            &&& function_c.spells(function@)
            &&& #[trigger] call.ensures((session.addr(), function_c), reply)
            &&& r == status_outcome(reply)
        },
{
    let function = cstring(function)?;
    status_to_result(call(session.as_ptr(), &function))
}

/// Detaches one bug of the session that was attached under `function`. There may be none.
pub fn pop_media_bug<F>(session: Session, function: &str, call: F) -> (r: Result<Option<MediaBug>>)
    where
        F: FnOnce(Address, &CText) -> Created,
    requires
        c_safe(function@) ==> forall|function_c: &CText|
            #![trigger call.requires((session.addr(), function_c))]
            function_c.spells(function@) ==> call.requires((session.addr(), function_c)),
    ensures
        !c_safe(function@) ==> r == Err::<Option<MediaBug>, SwitchError>(generic_error()),
        c_safe(function@) ==> exists|function_c: &CText, reply: Created|
            function_c.spells(function@) && #[trigger] call.ensures(
                (session.addr(), function_c),
                reply,
            ) && match status_outcome(reply.status) {
                Ok(_) => r matches Ok(bug) && maybe_at(bug, reply.raw),
                Err(e) => r == Err::<Option<MediaBug>, SwitchError>(e),
            },
{
    let function = cstring(function)?;
    let reply = call(session.as_ptr(), &function);
    status_to_result(reply.status)?;
    Ok(MediaBug::from_raw(reply.raw))
}

/// Removes `bug` from its session. All copies of the handle are stale afterwards.
pub fn remove_media_bug<F>(session: Session, bug: &mut MediaBug, call: F) -> (r: Result<()>)
    where
        F: FnOnce(Address, Address) -> RawStatus,
    requires
        call.requires((session.addr(), old(bug).addr())),
    ensures
        *final(bug) == *old(bug),
        exists|reply: RawStatus| #[trigger]
            call.ensures((session.addr(), old(bug).addr()), reply) && r == status_outcome(reply),
{
    status_to_result(call(session.as_ptr(), bug.as_ptr()))
}

/// Runs the callback at `cb` for every bug of the session that was attached under `function`.
pub fn exec_all_media_bugs<F>(
    session: Session,
    function: &str,
    cb: Address,
    user_data: Address,
    call: F,
) -> (r: Result<()>)
    where
        F: FnOnce(Address, &CText, Address, Address) -> RawStatus,
    requires
        c_safe(function@) ==> forall|function_c: &CText|
            #![trigger call.requires((session.addr(), function_c, cb, user_data))]
            function_c.spells(function@) ==> call.requires((session.addr(), function_c, cb,
                user_data)),
    ensures
        !c_safe(function@) ==> r == Err::<(), SwitchError>(generic_error()),
        c_safe(function@) ==> exists|function_c: &CText, reply: RawStatus| {
            &&& function_c.spells(function@)
            &&& #[trigger] call.ensures((session.addr(), function_c, cb, user_data), reply)
            &&& r == status_outcome(reply)
        },
{
    let function = cstring(function)?;
    status_to_result(call(session.as_ptr(), &function, cb, user_data))
}

/// Removes every bug of the session that has this callback.
pub fn remove_media_bugs_by_callback<F>(
    session: Session,
    callback: Address,
    call: F,
) -> (r: Result<()>)
    where
        F: FnOnce(Address, Address) -> RawStatus,
    requires
        call.requires((session.addr(), callback)),
    ensures
        exists|reply: RawStatus| {
            &&& #[trigger] call.ensures((session.addr(), callback), reply)
            &&& r == status_outcome(reply)
        },
{
    status_to_result(call(session.as_ptr(), callback))
}

/// Moves the bugs that have this callback to another session; `dup`, where it is not null, copies
/// their user data.
pub fn transfer_media_bug_callback<F>(
    orig: Session,
    new_session: Session,
    callback: Address,
    dup: Address,
    call: F,
) -> (r: Result<()>)
    where
        F: FnOnce(Address, Address, Address, Address) -> RawStatus,
    requires
        call.requires((orig.addr(), new_session.addr(), callback, dup)),
    ensures
        exists|reply: RawStatus| {
            &&& #[trigger] call.ensures((orig.addr(), new_session.addr(), callback, dup), reply)
            &&& r == status_outcome(reply)
        },
{
    status_to_result(call(orig.as_ptr(), new_session.as_ptr(), callback, dup))
}

/// Writes a list of the bugs of the session to a stream.
pub fn enumerate_media_bugs<F>(session: Session, stream: Address, call: F) -> (r: Result<()>)
    where
        F: FnOnce(Address, Address) -> RawStatus,
    requires
        call.requires((session.addr(), stream)),
    ensures
        exists|reply: RawStatus| {
            &&& #[trigger] call.ensures((session.addr(), stream), reply)
            &&& r == status_outcome(reply)
        },
{
    status_to_result(call(session.as_ptr(), stream))
}

/// Applies the video bugs of the session to a frame.
pub fn patch_video_media_bugs<F>(session: Session, frame: Address, call: F) -> (r: u32)
    where
        F: FnOnce(Address, Address) -> u32,
    requires
        call.requires((session.addr(), frame)),
    ensures
        call.ensures((session.addr(), frame), r),
{
    call(session.as_ptr(), frame)
}

/// Sets the video spy format of a bug.
pub fn set_spy_fmt<F>(bug: MediaBug, spy_fmt: u32, call: F)
    where
        F: FnOnce(Address, u32),
    requires
        call.requires((bug.addr(), spy_fmt)),
    ensures
        call.ensures((bug.addr(), spy_fmt), ()),
{
    call(bug.as_ptr(), spy_fmt)
}

/// The video spy format that is called `name`.
pub fn parse_spy_fmt<F>(name: &str, call: F) -> (r: Result<u32>)
    where
        F: FnOnce(&CText) -> u32,
    requires
        c_safe(name@) ==> forall|name_c: &CText|
            #![trigger call.requires((name_c,))]
            name_c.spells(name@) ==> call.requires((name_c,)),
    ensures
        !c_safe(name@) ==> r == Err::<u32, SwitchError>(generic_error()),
        c_safe(name@) ==> exists|name_c: &CText, reply: u32| {
            &&& name_c.spells(name@)
            &&& #[trigger] call.ensures((name_c,), reply)
            &&& r matches Ok(v) && v == reply
        },
{
    let name = cstring(name)?;
    let reply: u32 = call(&name);
    Ok(reply)
}

/// Makes a frame with room for `size` bytes and stores its address in `frame`.
pub fn frame_alloc<F>(frame: &mut Address, size: u64, call: F) -> (r: Result<()>)
    where
        F: FnOnce(Address, u64) -> Created,
    requires
        call.requires((*old(frame), size)),
    ensures
        exists|reply: Created| #[trigger]
            call.ensures((*old(frame), size), reply) && *final(frame) == reply.raw && r
                == status_outcome(reply.status),
{
    let reply = call(*frame, size);
    *frame = reply.raw;
    status_to_result(reply.status)
}

/// Frees the frame at `frame`; the call leaves the null pointer there.
pub fn frame_free<F>(frame: &mut Address, call: F) -> (r: Result<()>)
    where
        F: FnOnce(Address) -> Created,
    requires
        call.requires((*old(frame),)),
    ensures
        exists|reply: Created| #[trigger]
            call.ensures((*old(frame),), reply) && *final(frame) == reply.raw && r
                == status_outcome(reply.status),
{
    let reply = call(*frame);
    *frame = reply.raw;
    status_to_result(reply.status)
}

/// Copies the frame at `orig` and stores the copy's address in `clone`.
pub fn frame_dup<F>(orig: Address, clone: &mut Address, call: F) -> (r: Result<()>)
    where
        F: FnOnce(Address, Address) -> Created,
    requires
        call.requires((orig, *old(clone))),
    ensures
        exists|reply: Created| #[trigger]
            call.ensures((orig, *old(clone)), reply) && *final(clone) == reply.raw && r
                == status_outcome(reply.status),
{
    let reply = call(orig, *clone);
    *clone = reply.raw;
    status_to_result(reply.status)
}

/// The output takes as many whole samples as the codec expects, or as fit where that is fewer: never more
/// than either, and one more would not fit or is not expected. In particular the codec gets all of its
/// samples wherever the buffer has room for them. Output can be written exactly where there is a buffer
/// at an even address with room for a sample, and the codec expects one.
pub proof fn output_is_all_that_fits(fields: FrameFields)
    ensures
        2 * fields.output_samples() <= fields.buflen,
        fields.output_samples() <= fields.samples,
        fields.output_samples() == fields.samples || 2 * (fields.output_samples() + 1)
            > fields.buflen,
        2 * fields.samples <= fields.buflen ==> fields.output_samples() == fields.samples,
        fields.output_ready() <==> fields.data != 0 && fields.data % 2 == 0 && fields.samples > 0
            && fields.buflen >= 2,
{
}

/// A frame's payload is the first bytes of its memory, as many as the frame says, and none without data.
/// It can be viewed as samples exactly where there is one, of even length, at an even address.
pub proof fn payload_is_what_the_frame_says(frame: MediaFrame<'_>)
    requires
        frame.fields().data != 0 ==> frame.fields().datalen <= frame.memory().len(),
    ensures
        frame.fields().data == 0 ==> frame.payload().len() == 0,
        frame.fields().data != 0 ==> frame.payload().len() == frame.fields().datalen,
        forall|i: int|
            0 <= i < frame.payload().len() ==> #[trigger] frame.payload()[i] == frame.memory()[i],
        frame.fields().pcm_viewable() <==> frame.fields().data != 0 && frame.fields().data % 2 == 0
            && frame.fields().datalen > 0 && frame.fields().datalen % 2 == 0,
{
}

/// Each kind of callback is one step, and only that: what is not known keeps the bug.
pub proof fn callbacks_have_one_step_each(callback_type: u32)
    ensures
        bug_step(callback_type) is Init <==> callback_type == 0,
        bug_step(callback_type) is Read <==> callback_type == 1,
        bug_step(callback_type) is Write <==> callback_type == 2,
        bug_step(callback_type) is WriteReplace <==> callback_type == 3,
        bug_step(callback_type) is ReadReplace <==> callback_type == 4,
        bug_step(callback_type) is Close <==> callback_type == 8,
        bug_step(callback_type) is Keep <==> callback_type > 4 && callback_type != 8,
{
}

/// What was read goes to the reader and what was written to the writer, each with its own frame: at its
/// address, with its fields and its memory. An event without a frame delivers nothing.
pub proof fn events_deliver_their_own_frame(event: BugEvent<'_>, d: Delivery<'_>)
    requires
        delivers(event, d),
    ensures
        event is Init <==> d is Init,
        event is Other ==> d is Nothing,
        event matches BugEvent::Read(reply) ==> if reply.raw == 0 {
            d is Nothing
        } else {
            d matches Delivery::Read(f) && f.addr() == reply.raw && f.fields() == reply.fields
                && f.memory() == reply.memory@
        },
        event matches BugEvent::Write(reply) ==> if reply.raw == 0 {
            d is Nothing
        } else {
            d matches Delivery::Write(f) && f.addr() == reply.raw && f.fields() == reply.fields
                && f.memory() == reply.memory@
        },
        event matches BugEvent::ReadReplace(reply) ==> if reply.raw == 0 {
            d is Nothing
        } else {
            d matches Delivery::ReadReplace(f) && f.addr() == reply.raw && f.fields()
                == *reply.fields && f.memory() == reply.memory@
        },
        event matches BugEvent::WriteReplace(reply) ==> if reply.raw == 0 {
            d is Nothing
        } else {
            d matches Delivery::WriteReplace(f) && f.addr() == reply.raw && f.fields()
                == *reply.fields && f.memory() == reply.memory@
        },
        event.reaches_handler() <==> !(d is Nothing),
{
}

/// A frame is there exactly where its address is not null, and it is the one at that address.
pub proof fn frames_are_where_they_were_found(
    r: Option<MediaFrame<'_>>,
    reply: FrameReply<'_>,
    w: Option<MediaFrameMut<'_>>,
    writable: FrameReplyMut<'_>,
    fields: FrameFields,
    memory: Seq<u8>,
)
    requires
        frame_at(r, reply),
        frame_mut_at(w, writable),
        fields == *writable.fields,
        memory == writable.memory@,
    ensures
        r is Some <==> reply.raw != 0,
        r matches Some(f) ==> f.addr() == reply.raw && f.fields() == reply.fields && f.memory()
            == reply.memory@,
        w is Some <==> writable.raw != 0,
        w matches Some(f) ==> f.addr() == writable.raw && f.fields() == fields && f.memory()
            == memory,
{
}

/// The union of two sets of flags has a flag exactly where one of them has it.
pub proof fn bug_union_has_the_flags_of_both(a: MediaBugFlags, b: MediaBugFlags, k: u32)
    requires
        k < 32,
    ensures
        (vstd::std_specs::ops::BitOrSpec::bitor_spec(a, b).0 >> k) & 1 == 1 <==> (a.0 >> k) & 1 == 1
            || (b.0 >> k) & 1 == 1,
{
    let x = a.0;
    let y = b.0;
    assert(((x | y) >> k) & 1 == 1 <==> (x >> k) & 1 == 1 || (y >> k) & 1 == 1) by (bit_vector);
}

} // verus!
