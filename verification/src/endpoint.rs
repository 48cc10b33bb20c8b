//! Endpoints: the routines by which the core drives a kind of call leg, the values that they are
//! called with, and what each callback does around the endpoint's own code.

use vstd::prelude::*;
use crate::caller::CallerProfile;
use crate::command::{
    borrowed_cstr_to_string, c_safe, cstring, reply_text, text_is, CText,
};
use crate::handle::{maybe_at, Address, At, Handle, NULL};
use crate::media::{FrameFields, MediaFrame, MediaFrameMut};
use crate::session::Session;
use crate::status::{
    generic_error, CallDirection, Cause, OriginateFlag, RawCause, RawStatus, Result, Status,
    SwitchError, CAUSE_REQUESTED_CHAN_UNAVAIL, CAUSE_SUCCESS, FALSE, SUCCESS,
};

verus! {

/// A frame that an endpoint reads from.
pub type Frame<'a> = MediaFrame<'a>;

/// A frame that an endpoint fills.
pub type FrameMut<'a> = MediaFrameMut<'a>;

/// The fields of a DTMF event (`switch_dtmf_t`). The digit is one C `char`.
#[derive(Debug, Copy, Clone, PartialEq, Eq, Structural)]
pub struct DtmfFields {
    pub digit: i8,
    pub duration: u32,
    pub flags: i32,
    pub source: u32,
}

/// The origin of a DTMF event.
#[derive(Debug, Copy, Clone, PartialEq, Eq, Structural)]
pub struct DtmfSource(pub u32);

impl DtmfSource {
    pub const UNKNOWN: u32 = 0;
    pub const INBAND_AUDIO: u32 = 1;
    pub const RTP: u32 = 2;
    pub const ENDPOINT: u32 = 3;
    pub const APP: u32 = 4;
}

/// A DTMF event.
#[derive(Debug, Copy, Clone, PartialEq, Eq, Structural)]
pub struct Dtmf(pub DtmfFields);

/// The character of a digit byte; a negative byte is read as the upper half of Latin-1.
pub open spec fn digit_char(digit: i8) -> char {
    if digit >= 0 {
        (digit as u8) as char
    } else {
        ((digit + 256) as u8) as char
    }
}

impl Dtmf {
    /// Makes a DTMF event without flags; the duration is in samples. A digit that is not a single
    /// ASCII byte is refused.
    pub fn new(digit: char, duration: u32, source: DtmfSource) -> (r: Result<Dtmf>)
        ensures
            digit as u32 > 127 ==> r == Err::<Dtmf, SwitchError>(generic_error()),
            digit as u32 <= 127 ==> r == Ok::<Dtmf, SwitchError>(
                Dtmf(
                    DtmfFields { digit: (digit as u32) as i8, duration, flags: 0, source: source.0 },
                ),
            ),
    {
        let code: u32 = digit as u32;
        if code > 127 {
            return Err(SwitchError::generic());
        }
        Ok(Dtmf(DtmfFields { digit: code as i8, duration, flags: 0, source: source.0 }))
    }

    /// Sets the flags.
    pub fn with_flags(self, flags: i32) -> (r: Dtmf)
        ensures
            r == Dtmf(DtmfFields { flags, ..self.0 }),
    {
        Dtmf(DtmfFields { flags, ..self.0 })
    }

    /// The digit as the byte that it is.
    pub fn digit_raw(self) -> (r: i8)
        ensures
            r == self.0.digit,
    {
        self.0.digit
    }

    /// The digit as a character.
    pub fn digit(self) -> (r: char)
        ensures
            r == digit_char(self.0.digit),
    {
        let d: i8 = self.0.digit;
        if d >= 0 {
            (d as u8) as char
        } else {
            let wide: i16 = d as i16 + 256;
            (wide as u8) as char
        }
    }

    /// The duration in samples.
    pub fn duration(self) -> (r: u32)
        ensures
            r == self.0.duration,
    {
        self.0.duration
    }

    /// The flags.
    pub fn flags(self) -> (r: i32)
        ensures
            r == self.0.flags,
    {
        self.0.flags
    }

    /// The origin.
    pub fn source(self) -> (r: DtmfSource)
        ensures
            r == DtmfSource(self.0.source),
    {
        DtmfSource(self.0.source)
    }

    /// The fields.
    pub fn into_inner(self) -> (r: DtmfFields)
        ensures
            r == self.0,
    {
        self.0
    }

    /// The fields, where they stand.
    pub fn as_ptr(&self) -> (r: &DtmfFields)
        ensures
            *r == self.0,
    {
        &self.0
    }
}

/// The digit that goes into a DTMF event comes out of it.
pub proof fn dtmf_digit_round_trip(digit: char)
    requires
        digit as u32 <= 127,
    ensures
        digit_char((digit as u32) as i8) == digit,
{
}

/// A set of flags for reading and writing frames.
#[derive(Debug, Copy, Clone, PartialEq, Eq, Structural)]
pub struct IoFlags(pub u32);

impl IoFlags {
    pub const NONE: u32 = 0;
    pub const NOBLOCK: u32 = 1;
    pub const SINGLE_READ: u32 = 2;
    pub const FORCE: u32 = 4;
    pub const QUEUED: u32 = 8;

    /// The raw bits.
    pub fn bits(self) -> (r: u32)
        ensures
            r == self.0,
    {
        self.0
    }

    /// Whether every flag of `flag` is set. The empty set contains only itself.
    pub fn contains(self, flag: IoFlags) -> (r: bool)
        ensures
            r == set_contains(self.0, flag.0),
    {
        if flag.0 == 0 {
            self.0 == 0
        } else {
            (self.0 & flag.0) == flag.0
        }
    }
}

/// Whether the set `all` has every bit of `some`; the empty set is contained only in itself.
pub open spec fn set_contains(all: u32, some: u32) -> bool {
    if some == 0 {
        all == 0
    } else {
        all & some == some
    }
}

/// The union of two sets contains each of them that is not empty, and what it contains beyond them
/// has bits of both.
pub proof fn union_contains(a: u32, b: u32, c: u32)
    ensures
        a != 0 ==> set_contains(a | b, a),
        b != 0 ==> set_contains(a | b, b),
        c != 0 && (set_contains(a, c) || set_contains(b, c)) ==> set_contains(a | b, c),
        c != 0 && c & (a | b) == 0 ==> !set_contains(a | b, c),
{
    assert((a | b) & a == a) by (bit_vector);
    assert((a | b) & b == b) by (bit_vector);
    assert(a & c == c ==> (a | b) & c == c) by (bit_vector);
    assert(b & c == c ==> (a | b) & c == c) by (bit_vector);
    assert(c != 0 && c & (a | b) == 0 ==> (a | b) & c != c) by (bit_vector);
}

/// Containment of flag sets is reflexive, transitive and antisymmetric.
pub proof fn containment_is_an_order(a: u32, b: u32, c: u32)
    ensures
        set_contains(a, a),
        set_contains(a, b) && set_contains(b, c) ==> set_contains(a, c),
        set_contains(a, b) && set_contains(b, a) ==> a == b,
{
    assert(a & a == a) by (bit_vector);
    assert(a & b == b && b & c == c ==> a & c == c) by (bit_vector);
    assert(a & b == b && b & a == a ==> a == b) by (bit_vector);
    assert(b != 0 && a == 0 ==> a & b != b) by (bit_vector);
    assert(c != 0 && b == 0 ==> b & c != c) by (bit_vector);
}

impl std::ops::BitOr for IoFlags {
    type Output = IoFlags;

    fn bitor(self, rhs: IoFlags) -> (r: IoFlags) {
        IoFlags(self.0 | rhs.0)
    }
}

impl vstd::std_specs::ops::BitOrSpecImpl for IoFlags {
    open spec fn obeys_bitor_spec() -> bool {
        true
    }

    open spec fn bitor_req(self, rhs: IoFlags) -> bool {
        true
    }

    open spec fn bitor_spec(self, rhs: IoFlags) -> IoFlags {
        IoFlags(self.0 | rhs.0)
    }
}

impl std::ops::BitOrAssign for IoFlags {
    fn bitor_assign(&mut self, rhs: IoFlags)
        ensures
            *final(self) == IoFlags(old(self).0 | rhs.0),
    {
        self.0 = self.0 | rhs.0;
    }
}

impl Default for IoFlags {
    fn default() -> (r: IoFlags)
        ensures
            r == IoFlags(IoFlags::NONE),
    {
        IoFlags(IoFlags::NONE)
    }
}

/// The kind of a session message.
#[derive(Debug, Copy, Clone, PartialEq, Eq, Hash, Structural)]
pub struct MessageType(pub u32);

impl MessageType {
    pub const REDIRECT_AUDIO: u32 = 0;
    pub const TRANSMIT_TEXT: u32 = 1;
    pub const INDICATE_ANSWER: u32 = 2;
    pub const INDICATE_ACKNOWLEDGE_CALL: u32 = 3;
    pub const INDICATE_PROGRESS: u32 = 4;
    pub const INDICATE_BRIDGE: u32 = 5;
    pub const INDICATE_UNBRIDGE: u32 = 6;
    pub const INDICATE_TRANSFER: u32 = 7;
    pub const INDICATE_RINGING: u32 = 8;
    pub const INDICATE_ALERTING: u32 = 9;
    pub const INDICATE_MEDIA: u32 = 10;
    pub const INDICATE_3P_MEDIA: u32 = 11;
    pub const INDICATE_NOMEDIA: u32 = 12;
    pub const INDICATE_3P_NOMEDIA: u32 = 13;
    pub const INDICATE_HOLD: u32 = 14;
    pub const INDICATE_UNHOLD: u32 = 15;
    pub const INDICATE_REDIRECT: u32 = 16;
    pub const INDICATE_RESPOND: u32 = 17;
    pub const INDICATE_BROADCAST: u32 = 18;
    pub const INDICATE_MEDIA_REDIRECT: u32 = 19;
    pub const INDICATE_DEFLECT: u32 = 20;
    pub const INDICATE_VIDEO_REFRESH_REQ: u32 = 21;
    pub const INDICATE_DISPLAY: u32 = 22;
    pub const INDICATE_MEDIA_PARAMS: u32 = 23;
    pub const INDICATE_TRANSCODING_NECESSARY: u32 = 24;
    pub const INDICATE_AUDIO_SYNC: u32 = 25;
    pub const INDICATE_VIDEO_SYNC: u32 = 26;
    pub const INDICATE_REQUEST_IMAGE_MEDIA: u32 = 27;
    pub const INDICATE_UUID_CHANGE: u32 = 28;
    pub const INDICATE_SIMPLIFY: u32 = 29;
    pub const INDICATE_DEBUG_MEDIA: u32 = 30;
    pub const INDICATE_PROXY_MEDIA: u32 = 31;
    pub const INDICATE_APPLICATION_EXEC: u32 = 32;
    pub const INDICATE_APPLICATION_EXEC_COMPLETE: u32 = 33;
    pub const INDICATE_PHONE_EVENT: u32 = 34;
    pub const INDICATE_T38_DESCRIPTION: u32 = 35;
    pub const INDICATE_UDPTL_MODE: u32 = 36;
    pub const INDICATE_CLEAR_PROGRESS: u32 = 37;
    pub const INDICATE_JITTER_BUFFER: u32 = 38;
    pub const INDICATE_RECOVERY_REFRESH: u32 = 39;
    pub const INDICATE_SIGNAL_DATA: u32 = 40;
    pub const INDICATE_MESSAGE: u32 = 41;
    pub const INDICATE_INFO: u32 = 42;
    pub const INDICATE_AUDIO_DATA: u32 = 43;
    pub const INDICATE_BLIND_TRANSFER_RESPONSE: u32 = 44;
    pub const INDICATE_STUN_ERROR: u32 = 45;
    pub const INDICATE_MEDIA_RENEG: u32 = 46;
    pub const INDICATE_KEEPALIVE: u32 = 47;
    pub const INDICATE_HARD_MUTE: u32 = 48;
    pub const INDICATE_BITRATE_REQ: u32 = 49;
    pub const INDICATE_BITRATE_ACK: u32 = 50;
    pub const INDICATE_CODEC_DEBUG_REQ: u32 = 51;
    pub const INDICATE_CODEC_SPECIFIC_REQ: u32 = 52;
    pub const REFER_EVENT: u32 = 53;
    pub const ANSWER_EVENT: u32 = 54;
    pub const PROGRESS_EVENT: u32 = 55;
    pub const RING_EVENT: u32 = 56;
    pub const RESAMPLE_EVENT: u32 = 57;
    pub const HEARTBEAT_EVENT: u32 = 58;
    pub const INDICATE_SESSION_ID: u32 = 59;
    pub const INDICATE_PROMPT: u32 = 60;
    pub const INVALID: u32 = 61;

    /// The raw kind.
    pub fn raw(self) -> (r: u32)
        ensures
            r == self.0,
    {
        self.0
    }

    /// Wraps a raw kind.
    pub fn from_raw(v: u32) -> (r: MessageType)
        ensures
            r == MessageType(v),
    {
        MessageType(v)
    }

    /// Whether the message asks for an answer or reports one.
    pub open spec fn answers(self) -> bool {
        self.0 == MessageType::INDICATE_ANSWER || self.0 == MessageType::ANSWER_EVENT
    }

    /// Whether the message is about the progress of the call: progress, ringing or alerting, and the
    /// reports of the first two.
    pub open spec fn progresses(self) -> bool {
        ||| self.0 == MessageType::INDICATE_PROGRESS
        ||| self.0 == MessageType::INDICATE_RINGING
        ||| self.0 == MessageType::INDICATE_ALERTING
        ||| self.0 == MessageType::PROGRESS_EVENT
        ||| self.0 == MessageType::RING_EVENT
    }

    /// Whether the message asks for an answer or reports one.
    pub fn is_answer(self) -> (r: bool)
        ensures
            r == self.answers(),
    {
        self.0 == MessageType::INDICATE_ANSWER || self.0 == MessageType::ANSWER_EVENT
    }

    /// Whether the message is about the progress of the call.
    pub fn is_progress(self) -> (r: bool)
        ensures
            r == self.progresses(),
    {
        let v: u32 = self.0;
        v == MessageType::INDICATE_PROGRESS || v == MessageType::INDICATE_RINGING || v
            == MessageType::INDICATE_ALERTING || v == MessageType::PROGRESS_EVENT || v
            == MessageType::RING_EVENT
    }

    /// Whether the message carries text for the endpoint.
    pub fn is_text(self) -> (r: bool)
        ensures
            r == (self.0 == MessageType::TRANSMIT_TEXT),
    {
        self.0 == MessageType::TRANSMIT_TEXT
    }

    /// Whether the message is of no known kind.
    pub fn is_invalid(self) -> (r: bool)
        ensures
            r == (self.0 == MessageType::INVALID),
    {
        self.0 == MessageType::INVALID
    }
}

/// A message is of at most one of the four families.
pub proof fn message_families_are_disjoint(m: MessageType)
    ensures
        m.answers() ==> !m.progresses() && m.0 != MessageType::TRANSMIT_TEXT && m.0
            != MessageType::INVALID,
        m.progresses() ==> m.0 != MessageType::TRANSMIT_TEXT && m.0 != MessageType::INVALID,
{
}

impl From<u32> for MessageType {
    fn from(v: u32) -> (r: MessageType) {
        MessageType(v)
    }
}

impl vstd::std_specs::convert::FromSpecImpl<u32> for MessageType {
    open spec fn obeys_from_spec() -> bool {
        true
    }

    open spec fn from_spec(v: u32) -> MessageType {
        MessageType(v)
    }
}

/// The fields of a session message that an endpoint reads and answers with.
#[derive(Debug, Clone)]
pub struct MessageFields {
    pub message_id: u32,
    pub numeric_arg: i32,
    pub string_arg: Option<Vec<u8>>,
    pub pointer_arg: Address,
    pub pointer_arg_size: usize,
    pub numeric_reply: i32,
    pub string_reply: Address,
    pub string_reply_size: usize,
    pub pointer_reply: Address,
    pub pointer_reply_size: usize,
}

/// A message to a session, for the time of one callback.
#[derive(Debug, Clone)]
pub struct SessionMessage {
    raw: Handle,
    fields: MessageFields,
}

impl At for SessionMessage {
    closed spec fn addr(&self) -> Address {
        self.raw.addr()
    }
}

impl SessionMessage {
    /// The message's fields.
    pub closed spec fn fields(&self) -> MessageFields {
        self.fields
    }

    /// The fields as they stand, to be written back to the core's message.
    pub fn current_fields(&self) -> (r: &MessageFields)
        ensures
            *r == self.fields(),
    {
        &self.fields
    }

    /// Wraps a message; `None` for the null pointer.
    pub fn from_raw(raw: Address, fields: MessageFields) -> (r: Option<SessionMessage>)
        ensures
            maybe_at(r, raw),
            r matches Some(m) ==> m.fields() == fields,
    {
        match Handle::new(raw) {
            Some(raw) => Some(SessionMessage { raw, fields }),
            None => None,
        }
    }

    /// The message's address, which is never null.
    pub fn as_ptr(&self) -> (r: Address)
        ensures
            r == self.addr(),
            r != NULL,
    {
        self.raw.as_ptr()
    }

    /// The kind of the message.
    pub fn message_id(&self) -> (r: MessageType)
        ensures
            r == MessageType(self.fields().message_id),
    {
        MessageType::from_raw(self.fields.message_id)
    }

    /// The number that the message carries.
    pub fn numeric_arg(&self) -> (r: i32)
        ensures
            r == self.fields().numeric_arg,
    {
        self.fields.numeric_arg
    }

    /// The text that the message carries; `None` where there is none and where it is not UTF-8.
    pub fn string_arg(&self) -> (r: Option<String>)
        ensures
            text_is(r, reply_text(self.fields().string_arg)),
    {
        match &self.fields.string_arg {
            Some(bytes) => {
                let copy = bytes.clone();
                proof {
                    assert(copy@ =~= bytes@);
                }
                borrowed_cstr_to_string(Some(copy))
            },
            None => None,
        }
    }

    /// The pointer that the message carries.
    pub fn pointer(&self) -> (r: Address)
        ensures
            r == self.fields().pointer_arg,
    {
        self.fields.pointer_arg
    }

    /// The size of what the pointer points at.
    pub fn pointer_size(&self) -> (r: usize)
        ensures
            r == self.fields().pointer_arg_size,
    {
        self.fields.pointer_arg_size
    }

    /// The number of the reply.
    pub fn numeric_reply_mut(&mut self) -> (r: &mut i32)
        ensures
            *r == old(self).fields().numeric_reply,
            final(self).fields() == (MessageFields { numeric_reply: *final(r), ..old(self).fields()
                }),
            final(self).addr() == old(self).addr(),
    {
        &mut self.fields.numeric_reply
    }

    /// The address of the text of the reply.
    pub fn string_reply_mut(&mut self) -> (r: &mut Address)
        ensures
            *r == old(self).fields().string_reply,
            final(self).fields() == (MessageFields { string_reply: *final(r), ..old(self).fields() }),
            final(self).addr() == old(self).addr(),
    {
        &mut self.fields.string_reply
    }

    /// The size of the text of the reply.
    pub fn string_reply_size_mut(&mut self) -> (r: &mut usize)
        ensures
            *r == old(self).fields().string_reply_size,
            final(self).fields() == (MessageFields {
                string_reply_size: *final(r),
                ..old(self).fields()
            }),
            final(self).addr() == old(self).addr(),
    {
        &mut self.fields.string_reply_size
    }

    /// The pointer of the reply.
    pub fn pointer_reply_mut(&mut self) -> (r: &mut Address)
        ensures
            *r == old(self).fields().pointer_reply,
            final(self).fields() == (MessageFields { pointer_reply: *final(r), ..old(self).fields()
                }),
            final(self).addr() == old(self).addr(),
    {
        &mut self.fields.pointer_reply
    }

    /// The size of what the pointer of the reply points at.
    pub fn pointer_reply_size_mut(&mut self) -> (r: &mut usize)
        ensures
            *r == old(self).fields().pointer_reply_size,
            final(self).fields() == (MessageFields {
                pointer_reply_size: *final(r),
                ..old(self).fields()
            }),
            final(self).addr() == old(self).addr(),
    {
        &mut self.fields.pointer_reply_size
    }
}

/// The table of routines by which the core drives an endpoint. A routine that is not set is `None`.
#[derive(Debug, Copy, Clone, PartialEq, Eq)]
pub struct IoRoutines {
    pub outgoing_channel: Option<Address>,
    pub read_frame: Option<Address>,
    pub write_frame: Option<Address>,
    pub kill_channel: Option<Address>,
    pub send_dtmf: Option<Address>,
    pub receive_message: Option<Address>,
    pub receive_event: Option<Address>,
    pub state_change: Option<Address>,
    pub read_video_frame: Option<Address>,
    pub write_video_frame: Option<Address>,
    pub read_text_frame: Option<Address>,
    pub write_text_frame: Option<Address>,
    pub state_run: Option<Address>,
    pub get_jb: Option<Address>,
    pub padding: [Address; 10],
}

/// Whether no routine of a table is set and its padding is zero.
pub open spec fn no_routines(t: IoRoutines) -> bool {
    &&& t == (IoRoutines {
        outgoing_channel: None,
        read_frame: None,
        write_frame: None,
        kill_channel: None,
        send_dtmf: None,
        receive_message: None,
        receive_event: None,
        state_change: None,
        read_video_frame: None,
        write_video_frame: None,
        read_text_frame: None,
        write_text_frame: None,
        state_run: None,
        get_jb: None,
        padding: t.padding,
    })
    &&& forall|i: int| 0 <= i < 10 ==> t.padding@[i] == NULL
}

/// `Box::leak` of std: the value stays where it is and is never freed. That two values lie at two
/// addresses is not claimed.
#[verifier::external_body]
fn leak<T: 'static>(value: Box<T>) -> (r: &'static T)
    ensures
        *r == *value,
{
    Box::leak(value)
}

/// A table of routines under construction.
#[derive(Debug)]
pub struct IoRoutinesBuilder {
    pub inner: IoRoutines,
}

impl IoRoutinesBuilder {
    /// Starts with no routine set.
    pub fn new() -> (r: IoRoutinesBuilder)
        ensures
            no_routines(r.inner),
    {
        IoRoutinesBuilder {
            inner: IoRoutines {
                outgoing_channel: None,
                read_frame: None,
                write_frame: None,
                kill_channel: None,
                send_dtmf: None,
                receive_message: None,
                receive_event: None,
                state_change: None,
                read_video_frame: None,
                write_video_frame: None,
                read_text_frame: None,
                write_text_frame: None,
                state_run: None,
                get_jb: None,
                padding: [0,
                0,
                0,
                0,
                0,
                0,
                0,
                0,
                0,
                0],
            },
        }
    }

    /// Installs the callback that makes an outgoing leg.
    pub fn outgoing_channel(self, cb: Option<Address>) -> (r: IoRoutinesBuilder)
        ensures
            r.inner == (IoRoutines { outgoing_channel: cb, ..self.inner }),
    {
        IoRoutinesBuilder { inner: IoRoutines { outgoing_channel: cb, ..self.inner } }
    }

    /// Installs the callback that reads an audio frame.
    pub fn read_frame(self, cb: Option<Address>) -> (r: IoRoutinesBuilder)
        ensures
            r.inner == (IoRoutines { read_frame: cb, ..self.inner }),
    {
        IoRoutinesBuilder { inner: IoRoutines { read_frame: cb, ..self.inner } }
    }

    /// Installs the callback that writes an audio frame.
    pub fn write_frame(self, cb: Option<Address>) -> (r: IoRoutinesBuilder)
        ensures
            r.inner == (IoRoutines { write_frame: cb, ..self.inner }),
    {
        IoRoutinesBuilder { inner: IoRoutines { write_frame: cb, ..self.inner } }
    }

    /// Installs the callback for a hangup signal.
    pub fn kill_channel(self, cb: Option<Address>) -> (r: IoRoutinesBuilder)
        ensures
            r.inner == (IoRoutines { kill_channel: cb, ..self.inner }),
    {
        IoRoutinesBuilder { inner: IoRoutines { kill_channel: cb, ..self.inner } }
    }

    /// Installs the callback that sends DTMF.
    pub fn send_dtmf(self, cb: Option<Address>) -> (r: IoRoutinesBuilder)
        ensures
            r.inner == (IoRoutines { send_dtmf: cb, ..self.inner }),
    {
        IoRoutinesBuilder { inner: IoRoutines { send_dtmf: cb, ..self.inner } }
    }

    /// Installs the callback for session messages.
    pub fn receive_message(self, cb: Option<Address>) -> (r: IoRoutinesBuilder)
        ensures
            r.inner == (IoRoutines { receive_message: cb, ..self.inner }),
    {
        IoRoutinesBuilder { inner: IoRoutines { receive_message: cb, ..self.inner } }
    }

    /// Installs the callback for events.
    pub fn receive_event(self, cb: Option<Address>) -> (r: IoRoutinesBuilder)
        ensures
            r.inner == (IoRoutines { receive_event: cb, ..self.inner }),
    {
        IoRoutinesBuilder { inner: IoRoutines { receive_event: cb, ..self.inner } }
    }

    /// Installs the callback for a change of state.
    pub fn state_change(self, cb: Option<Address>) -> (r: IoRoutinesBuilder)
        ensures
            r.inner == (IoRoutines { state_change: cb, ..self.inner }),
    {
        IoRoutinesBuilder { inner: IoRoutines { state_change: cb, ..self.inner } }
    }

    /// Installs the callback that reads a video frame.
    pub fn read_video_frame(self, cb: Option<Address>) -> (r: IoRoutinesBuilder)
        ensures
            r.inner == (IoRoutines { read_video_frame: cb, ..self.inner }),
    {
        IoRoutinesBuilder { inner: IoRoutines { read_video_frame: cb, ..self.inner } }
    }

    /// Installs the callback that writes a video frame.
    pub fn write_video_frame(self, cb: Option<Address>) -> (r: IoRoutinesBuilder)
        ensures
            r.inner == (IoRoutines { write_video_frame: cb, ..self.inner }),
    {
        IoRoutinesBuilder { inner: IoRoutines { write_video_frame: cb, ..self.inner } }
    }

    /// Installs the callback that reads a text frame.
    pub fn read_text_frame(self, cb: Option<Address>) -> (r: IoRoutinesBuilder)
        ensures
            r.inner == (IoRoutines { read_text_frame: cb, ..self.inner }),
    {
        IoRoutinesBuilder { inner: IoRoutines { read_text_frame: cb, ..self.inner } }
    }

    /// Installs the callback that writes a text frame.
    pub fn write_text_frame(self, cb: Option<Address>) -> (r: IoRoutinesBuilder)
        ensures
            r.inner == (IoRoutines { write_text_frame: cb, ..self.inner }),
    {
        IoRoutinesBuilder { inner: IoRoutines { write_text_frame: cb, ..self.inner } }
    }

    /// Installs the callback that runs a state.
    pub fn state_run(self, cb: Option<Address>) -> (r: IoRoutinesBuilder)
        ensures
            r.inner == (IoRoutines { state_run: cb, ..self.inner }),
    {
        IoRoutinesBuilder { inner: IoRoutines { state_run: cb, ..self.inner } }
    }

    /// Installs the callback that finds the jitter buffer.
    pub fn get_jb(self, cb: Option<Address>) -> (r: IoRoutinesBuilder)
        ensures
            r.inner == (IoRoutines { get_jb: cb, ..self.inner }),
    {
        IoRoutinesBuilder { inner: IoRoutines { get_jb: cb, ..self.inner } }
    }

    /// The finished table. It is never freed: the core keeps it for as long as the module is there.
    pub fn build(self) -> (r: Result<&'static IoRoutines>)
        ensures
            r matches Ok(t) && *t == self.inner,
    {
        Ok(leak(Box::new(self.inner)))
    }
}

impl Default for IoRoutinesBuilder {
    fn default() -> (r: IoRoutinesBuilder)
        ensures
            no_routines(r.inner),
    {
        IoRoutinesBuilder::new()
    }
}

/// What an endpoint answers when it is asked for an outgoing leg: a cause, and the session that it
/// made. The leg comes about only with the cause of success and a session.
#[derive(Debug)]
pub struct OutgoingResult {
    pub cause: Cause,
    pub new_session: Option<Session>,
}

impl OutgoingResult {
    /// Whether the answer refuses the leg.
    pub open spec fn is_refusal(&self) -> bool {
        self.cause == Cause(CAUSE_REQUESTED_CHAN_UNAVAIL) && self.new_session is None
    }

    /// Refuses the leg.
    pub fn refused() -> (r: OutgoingResult)
        ensures
            r.is_refusal(),
    {
        OutgoingResult { cause: Cause(CAUSE_REQUESTED_CHAN_UNAVAIL), new_session: None }
    }

    /// Accepts the leg and hands over its session.
    pub fn success(session: Session) -> (r: OutgoingResult)
        ensures
            r == (OutgoingResult { cause: Cause(CAUSE_SUCCESS), new_session: Some(session) }),
    {
        OutgoingResult { cause: Cause(CAUSE_SUCCESS), new_session: Some(session) }
    }
}

/// The code of an endpoint. It has no receiver: what belongs to one call is found by its session.
/// Every routine has a default: an outgoing leg is refused, the others succeed and do nothing.
pub trait EndpointIoRoutines {
    /// The name under which the endpoint is registered.
    fn name() -> &'static str;

    /// Makes an outgoing leg.
    fn outgoing_channel(
        session: Option<&Session>,
        caller_profile: Option<CallerProfile>,
        endpoint: &EndpointInterfaceRef,
        flags: OriginateFlag,
    ) -> (r: OutgoingResult)
        default_ensures
            r.is_refusal(),
    {
        OutgoingResult::refused()
    }

    /// Fills a frame with what the endpoint has to say.
    fn read_frame(session: &Session, frame: &mut FrameMut<'_>) -> (r: Status)
        default_ensures
            r == Status(SUCCESS),
            *final(frame) == *old(frame),
    {
        Status(SUCCESS)
    }

    /// Takes a frame of what the caller says.
    fn write_frame(session: &Session, frame: &Frame<'_>) -> (r: Status)
        default_ensures
            r == Status(SUCCESS),
    {
        Status(SUCCESS)
    }

    /// Takes a hangup signal.
    fn kill_channel(session: &Session, sig: i32) -> (r: Status)
        default_ensures
            r == Status(SUCCESS),
    {
        Status(SUCCESS)
    }
}

/// Makes the table of an endpoint.
pub struct EndpointIoBuilder;

impl EndpointIoBuilder {
    /// The table that holds the four callbacks at these addresses and nothing else. It is never freed.
    pub fn build(outgoing: Address, read: Address, write: Address, kill: Address) -> (r: Result<
        &'static IoRoutines,
    >)
        ensures
            r matches Ok(t) && {
                &&& t.outgoing_channel == Some(outgoing)
                &&& t.read_frame == Some(read)
                &&& t.write_frame == Some(write)
                &&& t.kill_channel == Some(kill)
                &&& no_routines(
                    (IoRoutines {
                        outgoing_channel: None,
                        read_frame: None,
                        write_frame: None,
                        kill_channel: None,
                        ..*t
                    }),
                )
            },
    {
        IoRoutinesBuilder::new().outgoing_channel(Some(outgoing)).read_frame(
            Some(read),
        ).write_frame(Some(write)).kill_channel(Some(kill)).build()
    }
}

/// The cause that the core gets where the endpoint's code panicked.
pub fn trampoline_panic_cause() -> (r: Cause)
    ensures
        r == Cause(CAUSE_REQUESTED_CHAN_UNAVAIL),
{
    Cause(CAUSE_REQUESTED_CHAN_UNAVAIL)
}

/// The status that the core gets where the endpoint's code panicked.
pub fn trampoline_panic_status() -> (r: Status)
    ensures
        r == Status(FALSE),
{
    Status(FALSE)
}

/// What the callback for an outgoing leg gives back to the core: the cause that it returns, and
/// what it stores in the places for the new session and for the cause; `None` leaves such a place
/// alone.
#[derive(Debug, Copy, Clone, PartialEq, Eq, Structural)]
pub struct OutgoingReply {
    pub returned: RawCause,
    pub new_session: Option<Address>,
    pub cause: Option<RawCause>,
}

/// The reply that refuses a leg and stores nothing.
pub open spec fn refusal() -> OutgoingReply {
    OutgoingReply { returned: CAUSE_REQUESTED_CHAN_UNAVAIL, new_session: None, cause: None }
}

/// The reply for what the endpoint answered; `None` says that its code panicked.
pub open spec fn outgoing_reply(
    result: Option<OutgoingResult>,
    new_session_out: Address,
    cause_out: Address,
) -> OutgoingReply {
    match result {
        Some(result) => OutgoingReply {
            returned: result.cause.0,
            new_session: if new_session_out == NULL {
                None
            } else {
                match result.new_session {
                    Some(s) => Some(s.addr()),
                    None => None,
                }
            },
            cause: if cause_out == NULL {
                None
            } else {
                Some(result.cause.0)
            },
        },
        None => refusal(),
    }
}

/// The callback for an outgoing leg. The endpoint is looked up by name; where it is not registered
/// the leg is refused. Else the endpoint's code is called, `None` standing for a panic in it, and the
/// reference that the lookup took is given back by `release` when it has returned. A place for a result
/// is filled only where it is not null.
pub fn outgoing_trampoline<L, H, R>(
    session: Address,
    caller_profile: Address,
    new_session_out: Address,
    flags: u32,
    cause_out: Address,
    name: &str,
    lookup: L,
    handler: H,
    release: R,
) -> (r: OutgoingReply)
    where
        L: FnOnce(&CText) -> Address,
        H: FnOnce(Option<Session>, Option<CallerProfile>, &EndpointInterfaceRef, OriginateFlag) ->
            Option<
            OutgoingResult,
        >,
        R: FnOnce(Address),
    requires
        c_safe(name@) ==> forall|name_c: &CText|
            #![trigger lookup.requires((name_c,))]
            name_c.spells(name@) ==> lookup.requires((name_c,)),
        forall|
            name_c: &CText,
            found: Address,
            s: Option<Session>,
            p: Option<CallerProfile>,
            e: &EndpointInterfaceRef,
        |
            #![trigger lookup.ensures((name_c,), found), handler.requires(
                (s, p, e, OriginateFlag(flags)),
            )]
            name_c.spells(name@) && lookup.ensures((name_c,), found) && found != NULL && maybe_at(
                s,
                session,
            ) && maybe_at(p, caller_profile) && e.addr() == found ==> handler.requires(
                (s, p, e, OriginateFlag(flags)),
            ),
        forall|
            name_c: &CText,
            found: Address,
            s: Option<Session>,
            p: Option<CallerProfile>,
            e: &EndpointInterfaceRef,
            result: Option<OutgoingResult>,
        |
            #![trigger lookup.ensures((name_c,), found), handler.ensures(
                (s, p, e, OriginateFlag(flags)),
                result,
            )]
            name_c.spells(name@) && lookup.ensures((name_c,), found) && found != NULL && e.addr()
                == found && handler.ensures((s, p, e, OriginateFlag(flags)), result)
                ==> release.requires((found,)),
    ensures
        !c_safe(name@) ==> r == refusal(),
        c_safe(name@) ==> exists|name_c: &CText, found: Address|
            name_c.spells(name@) && #[trigger] lookup.ensures((name_c,), found) && if found
                == NULL {
                r == refusal()
            } else {
                exists|
                    s: Option<Session>,
                    p: Option<CallerProfile>,
                    e: &EndpointInterfaceRef,
                    result: Option<OutgoingResult>,
                |
                    maybe_at(s, session) && maybe_at(p, caller_profile) && e.addr() == found
                        && #[trigger] handler.ensures((s, p, e, OriginateFlag(flags)), result) && r
                        == outgoing_reply(result, new_session_out, cause_out)
                        && release.ensures((found,), ())
            },
{
    let session = Session::from_raw(session);
    let caller_profile = CallerProfile::from_raw(caller_profile);
    let endpoint = match EndpointInterfaceRef::lookup(name, lookup) {
        Some(endpoint) => endpoint,
        None => {
            return OutgoingReply {
                returned: OutgoingResult::refused().cause.raw(),
                new_session: None,
                cause: None,
            };
        },
    };
    let result = handler(session, caller_profile, &endpoint, OriginateFlag(flags));
    release(endpoint.as_ptr());
    match result {
        Some(result) => {
            let returned: RawCause = result.cause.raw();
            let new_session = match &result.new_session {
                Some(s) => if new_session_out == NULL {
                    None
                } else {
                    Some(s.as_ptr())
                },
                None => None,
            };
            let cause = if cause_out == NULL {
                None
            } else {
                Some(returned)
            };
            OutgoingReply { returned, new_session, cause }
        },
        None => OutgoingReply {
            returned: trampoline_panic_cause().raw(),
            new_session: None,
            cause: None,
        },
    }
}

/// What the callback that reads a frame gives back to the core: a status, and the address of a
/// frame to be stored in the frame slot; `None` leaves the slot alone.
#[derive(Debug, Copy, Clone, PartialEq, Eq, Structural)]
pub struct ReadFrameReply {
    pub status: RawStatus,
    pub frame: Option<Address>,
}

/// The status for what the endpoint's code returned; `None` says that it panicked.
pub open spec fn handler_status(result: Option<Status>) -> RawStatus {
    match result {
        Some(status) => status.0,
        None => FALSE,
    }
}

/// The status for what the endpoint's code returned.
fn status_of(result: Option<Status>) -> (r: RawStatus)
    ensures
        r == handler_status(result),
{
    match result {
        Some(status) => status.raw(),
        None => trampoline_panic_status().raw(),
    }
}

/// Whether `status` is what the endpoint's code makes of the frame at `frame` for the session at
/// `session`; a null frame is answered without calling it.
pub open spec fn frame_handled<H>(handler: H, session: Address, frame: Address, status: RawStatus)
    -> bool
    where
        H: FnOnce(Session, Address) -> Option<Status>,
{
    if frame == NULL {
        status == FALSE
    } else {
        exists|s: Session, result: Option<Status>|
            s.addr() == session && #[trigger] handler.ensures((s, frame), result) && status
                == handler_status(result)
    }
}

/// The callback that reads a frame. `slot` is the address of the frame slot and `inner` the frame
/// that stands in it. Where that is null, `ensure` finds the session's own frame, which is stored in
/// the slot and handed to the endpoint's code.
pub fn read_frame_trampoline<E, H>(
    session: Address,
    slot: Address,
    inner: Address,
    ensure: E,
    handler: H,
) -> (r: ReadFrameReply)
    where
        E: FnOnce(Session) -> Option<Address>,
        H: FnOnce(Session, Address) -> Option<Status>,
    requires
        session != NULL && slot != NULL && inner == NULL ==> forall|s: Session|
            s.addr() == session ==> #[trigger] ensure.requires((s,)),
        session != NULL && slot != NULL ==> forall|s: Session, f: Address|
            #![trigger handler.requires((s, f))]
            s.addr() == session && f != NULL && (inner == f || (inner == NULL && exists|own: Session|
                own.addr() == session && #[trigger] ensure.ensures((own,), Some(f))))
                ==> handler.requires((s, f)),
    ensures
        session == NULL || slot == NULL ==> r == (ReadFrameReply { status: FALSE, frame: None }),
        session != NULL && slot != NULL && inner != NULL ==> r.frame is None && frame_handled(
            handler,
            session,
            inner,
            r.status,
        ),
        session != NULL && slot != NULL && inner == NULL ==> exists|s: Session, own: Option<Address>|
            s.addr() == session && #[trigger] ensure.ensures((s,), own) && r.frame == own
                && match own {
                Some(frame) => frame_handled(handler, session, frame, r.status),
                None => r.status == FALSE,
            },
{
    let session = match Session::from_raw(session) {
        Some(session) => session,
        None => {
            return ReadFrameReply { status: FALSE, frame: None };
        },
    };
    if slot == NULL {
        return ReadFrameReply { status: FALSE, frame: None };
    }
    let mut frame: Address = inner;
    let mut stored: Option<Address> = None;
    if frame == NULL {
        match ensure(session) {
            Some(own) => {
                frame = own;
                stored = Some(own);
            },
            None => {
                return ReadFrameReply { status: FALSE, frame: None };
            },
        }
    }
    if frame == NULL {
        return ReadFrameReply { status: FALSE, frame: stored };
    }
    ReadFrameReply { status: status_of(handler(session, frame)), frame: stored }
}

/// The callback that writes a frame. Without a session or a frame the endpoint's code is not called.
pub fn write_frame_trampoline<H>(session: Address, frame: Address, handler: H) -> (r: RawStatus)
    where
        H: FnOnce(Session, Address) -> Option<Status>,
    requires
        session != NULL && frame != NULL ==> forall|s: Session|
            s.addr() == session ==> #[trigger] handler.requires((s, frame)),
    ensures
        session == NULL ==> r == FALSE,
        session != NULL ==> frame_handled(handler, session, frame, r),
{
    let session = match Session::from_raw(session) {
        Some(session) => session,
        None => {
            return FALSE;
        },
    };
    if frame == NULL {
        return FALSE;
    }
    status_of(handler(session, frame))
}

/// The callback for a hangup signal. Without a session the endpoint's code is not called.
pub fn kill_channel_trampoline<H>(session: Address, sig: i32, handler: H) -> (r: RawStatus)
    where
        H: FnOnce(Session, i32) -> Option<Status>,
    requires
        session != NULL ==> forall|s: Session|
            s.addr() == session ==> #[trigger] handler.requires((s, sig)),
    ensures
        session == NULL ==> r == FALSE,
        session != NULL ==> exists|s: Session, result: Option<Status>|
            s.addr() == session && #[trigger] handler.ensures((s, sig), result) && r
                == handler_status(result),
{
    let session = match Session::from_raw(session) {
        Some(session) => session,
        None => {
            return FALSE;
        },
    };
    status_of(handler(session, sig))
}

/// The number of callbacks in a table of state handlers.
pub const STATE_HANDLER_COUNT: usize = 14;

/// A table of state handlers. The core insists on a table; a callback that is null is passed over.
#[derive(Debug)]
pub struct StateHandlerTable {
    pub callbacks: [Address; 14],
    pub flags: i32,
    pub padding: [Address; 10],
}

impl StateHandlerTable {
    /// A table without a callback. It is never freed.
    pub fn new_null() -> (r: &'static StateHandlerTable)
        ensures
            forall|i: int| 0 <= i < STATE_HANDLER_COUNT ==> r.callbacks@[i] == NULL,
            r.flags == 0,
            forall|i: int| 0 <= i < 10 ==> r.padding@[i] == NULL,
    {
        leak(
            Box::new(
                StateHandlerTable {
                    callbacks: [0, 0, 0, 0, 0, 0, 0, 0, 0, 0, 0, 0, 0, 0],
                    flags: 0,
                    padding: [0, 0, 0, 0, 0, 0, 0, 0, 0, 0],
                },
            ),
        )
    }
}

/// A reference to a registered endpoint. It is counted: it has to be given back once.
#[derive(Debug)]
pub struct EndpointInterfaceRef {
    raw: Handle,
}

impl At for EndpointInterfaceRef {
    closed spec fn addr(&self) -> Address {
        self.raw.addr()
    }
}

impl EndpointInterfaceRef {
    /// Wraps an address; `None` for the null pointer.
    pub fn from_raw(raw: Address) -> (r: Option<EndpointInterfaceRef>)
        ensures
            maybe_at(r, raw),
    {
        match Handle::new(raw) {
            Some(raw) => Some(EndpointInterfaceRef { raw }),
            None => None,
        }
    }

    /// The address, which is never null.
    pub fn as_ptr(&self) -> (r: Address)
        ensures
            r == self.addr(),
            r != NULL,
    {
        self.raw.as_ptr()
    }
}

impl EndpointInterfaceRef {
    /// Finds a registered endpoint by name and takes a reference to it. A name that holds a NUL
    /// character is not registered.
    pub fn lookup<F>(name: &str, call: F) -> (r: Option<EndpointInterfaceRef>)
        where
            F: FnOnce(&CText) -> Address,
        requires
            c_safe(name@) ==> forall|name_c: &CText|
                #![trigger call.requires((name_c,))]
                name_c.spells(name@) ==> call.requires((name_c,)),
        ensures
            !c_safe(name@) ==> r is None,
            c_safe(name@) ==> exists|name_c: &CText, found: Address|
                name_c.spells(name@) && #[trigger] call.ensures((name_c,), found) && maybe_at(
                    r,
                    found,
                ),
    {
        match cstring(name) {
            Ok(name) => EndpointInterfaceRef::from_raw(call(&name)),
            Err(_) => None,
        }
    }

    /// Gives back a reference: the number of references that is to be stored, or `None` where the
    /// endpoint has no lock and its count is left alone. The count never goes below zero.
    pub fn unprotect(reflock: Address, refs: i32) -> (r: Option<i32>)
        ensures
            reflock == NULL ==> r is None,
            reflock != NULL ==> r == Some(if refs > 0 { (refs - 1) as i32 } else { refs }),
    {
        if reflock == NULL {
            return None;
        }
        if refs > 0 {
            Some(refs - 1)
        } else {
            Some(refs)
        }
    }
}

/// Makes a session of the endpoint under a fresh UUID; `None` where the core refuses.
pub fn request_session<F>(
    endpoint: &EndpointInterfaceRef,
    direction: CallDirection,
    flags: OriginateFlag,
    call: F,
) -> (r: Option<Session>)
    where
        F: FnOnce(Address, u32, u32) -> Address,
    requires
        call.requires((endpoint.addr(), direction.0, flags.0)),
    ensures
        exists|reply: Address| {
            &&& #[trigger] call.ensures((endpoint.addr(), direction.0, flags.0), reply)
            &&& maybe_at(r, reply)
        },
{
    Session::from_raw(call(endpoint.as_ptr(), direction.0, flags.0))
}

/// The number of bytes in the buffer of a session's own read frame.
pub const READ_FRAME_BUF_BYTES: usize = 2048;

/// The key under which a channel keeps the session's own read frame.
pub const READ_FRAME_KEY: &'static str = "fswtch_endpoint_read_frame";

/// What the core says of a session's read codec.
#[derive(Debug, Copy, Clone, PartialEq, Eq, Structural)]
pub struct ReadCodec {
    pub rate: u32,
    pub samples: u32,
    pub codec: Address,
}

/// The fields of a fresh read frame: an empty payload in the buffer at `buffer`, one channel, and
/// the session's read codec.
pub open spec fn fresh_read_frame(buffer: Address, codec: ReadCodec) -> FrameFields {
    FrameFields {
        data: buffer,
        datalen: 0,
        buflen: READ_FRAME_BUF_BYTES as u32,
        samples: codec.samples,
        rate: codec.rate,
        channels: 1,
        codec: codec.codec,
    }
}

/// The answers of the core to the calls that look for a session's own read frame.
pub struct ReadFrameAnswers {
    pub channel: Address,
    pub cached: Address,
    pub frame: Address,
    pub buffer: Address,
}

impl ReadFrameAnswers {
    /// Whether a frame has to be made: there is a channel, and it has none stored.
    pub open spec fn must_make(self) -> bool {
        self.channel != NULL && self.cached == NULL
    }

    /// Whether a frame was made: the core had memory for it and for its buffer.
    pub open spec fn made(self) -> bool {
        self.must_make() && self.frame != NULL && self.buffer != NULL
    }

    /// The session's own read frame: the stored one, or the one that was made.
    pub open spec fn outcome(self) -> Option<Address> {
        if self.channel != NULL && self.cached != NULL {
            Some(self.cached)
        } else if self.made() {
            Some(self.frame)
        } else {
            None
        }
    }
}

/// The literal key can be handed over as a C string.
proof fn read_frame_key_is_safe()
    ensures
        c_safe(READ_FRAME_KEY@),
{
    reveal_strlit("fswtch_endpoint_read_frame");
}

/// A second call finds the frame that the first one made and makes none: where the channel answers with
/// what was stored in it, the second call returns the same frame, and nothing is to be made.
pub proof fn stored_frame_is_found_again<G>(
    first: ReadFrameAnswers,
    second: ReadFrameAnswers,
    stored: G,
    key: &CText,
)
    where
        G: FnOnce(Address, &CText) -> Address,
    requires
        first.made(),
        second.channel == first.channel,
        stored.ensures((second.channel, key), second.cached),
        forall|p: Address| #[trigger] stored.ensures((first.channel, key), p) ==> p == first.frame,
    ensures
        first.outcome() == Some(first.frame),
        second.outcome() == first.outcome(),
        !second.must_make(),
        !second.made(),
{
}

/// Finds the frame that the session's reads go through, and makes it on first use.
///
/// The core reads frames into a slot that it empties first, so an endpoint without a frame of its
/// own needs one that lives as long as the session. `channel_of` reports the session's channel,
/// `stored` what the channel keeps under a key, `allocate_frame` and `allocate_buffer` take zeroed
/// memory from the session's pool, `read_codec` describes the read codec, `install` writes the fields
/// of the new frame and `store` keeps a pointer under a key. `frame_size` is the size of a frame. A
/// stored frame is returned as it is, and nothing is allocated. That storing the new frame may fail
/// is of no account: the next call makes another.
pub fn ensure_session_read_frame<C, G, A, B, R, I, S>(
    session: &Session,
    frame_size: usize,
    channel_of: C,
    stored: G,
    allocate_frame: A,
    allocate_buffer: B,
    read_codec: R,
    install: I,
    store: S,
) -> (r: Option<Address>)
    where
        C: FnOnce(Address) -> Address,
        G: FnOnce(Address, &CText) -> Address,
        A: FnOnce(Address, usize) -> Address,
        B: FnOnce(Address, usize) -> Address,
        R: FnOnce(Address) -> ReadCodec,
        I: FnOnce(Address, FrameFields),
        S: FnOnce(Address, &CText, Address) -> RawStatus,
    requires
        channel_of.requires((session.addr(),)),
        forall|channel: Address, k: &CText|
            #![trigger stored.requires((channel, k))]
            channel_of.ensures((session.addr(),), channel) && channel != NULL && k.spells(
                READ_FRAME_KEY@,
            ) ==> stored.requires((channel, k)),
        forall|channel: Address, k: &CText|
            channel_of.ensures((session.addr(),), channel) && channel != NULL && k.spells(
                READ_FRAME_KEY@,
            ) && #[trigger] stored.ensures((channel, k), NULL) ==> allocate_frame.requires(
                (session.addr(), frame_size),
            ),
        forall|frame: Address| #[trigger]
            allocate_frame.ensures((session.addr(), frame_size), frame) && frame != NULL
                ==> allocate_buffer.requires((session.addr(), READ_FRAME_BUF_BYTES)),
        forall|buffer: Address| #[trigger]
            allocate_buffer.ensures((session.addr(), READ_FRAME_BUF_BYTES), buffer) && buffer
                != NULL ==> read_codec.requires((session.addr(),)),
        forall|frame: Address, buffer: Address, c: ReadCodec|
            #![trigger install.requires((frame, fresh_read_frame(buffer, c)))]
            allocate_frame.ensures((session.addr(), frame_size), frame) && frame != NULL
                && allocate_buffer.ensures((session.addr(), READ_FRAME_BUF_BYTES), buffer) && buffer
                != NULL && read_codec.ensures((session.addr(),), c) ==> install.requires(
                (frame, fresh_read_frame(buffer, c)),
            ),
        forall|channel: Address, k: &CText, frame: Address, buffer: Address, c: ReadCodec|
            #![trigger store.requires((channel, k, frame)), install.ensures(
                (frame, fresh_read_frame(buffer, c)),
                (),
            )]
            channel_of.ensures((session.addr(),), channel) && channel != NULL && k.spells(
                READ_FRAME_KEY@,
            ) && install.ensures((frame, fresh_read_frame(buffer, c)), ()) ==> store.requires(
                (channel, k, frame),
            ),
    ensures
        r matches Some(frame) ==> frame != NULL,
        exists|t: ReadFrameAnswers|
            {
                &&& #[trigger] channel_of.ensures((session.addr(),), t.channel)
                &&& r == t.outcome()
                &&& t.channel != NULL ==> exists|k: &CText|
                    k.spells(READ_FRAME_KEY@) && #[trigger] stored.ensures((t.channel, k), t.cached)
                &&& t.must_make() ==> allocate_frame.ensures((session.addr(), frame_size), t.frame)
                &&& t.must_make() && t.frame != NULL ==> allocate_buffer.ensures(
                    (session.addr(), READ_FRAME_BUF_BYTES),
                    t.buffer,
                )
                &&& t.made() ==> exists|c: ReadCodec|
                    #[trigger] read_codec.ensures((session.addr(),), c) && install.ensures(
                        (t.frame, fresh_read_frame(t.buffer, c)),
                        (),
                    )
                &&& t.made() ==> exists|k: &CText, kept: RawStatus|
                    k.spells(READ_FRAME_KEY@) && #[trigger] store.ensures(
                        (t.channel, k, t.frame),
                        kept,
                    )
            },
{
    let raw: Address = session.as_ptr();
    let channel: Address = channel_of(raw);
    let ghost mut t = ReadFrameAnswers { channel, cached: NULL, frame: NULL, buffer: NULL };
    proof {
        assert(channel_of.ensures((session.addr(),), t.channel));
        read_frame_key_is_safe();
    }
    if channel == NULL {
        return None;
    }
    let key = match cstring(READ_FRAME_KEY) {
        Ok(key) => key,
        Err(_) => {
            return None;
        },
    };
    let cached: Address = stored(channel, &key);
    proof {
        t = ReadFrameAnswers { cached, ..t };
        assert(channel_of.ensures((session.addr(),), t.channel));
    }
    if cached != NULL {
        return Some(cached);
    }
    let frame: Address = allocate_frame(raw, frame_size);
    proof {
        t = ReadFrameAnswers { frame, ..t };
        assert(channel_of.ensures((session.addr(),), t.channel));
    }
    if frame == NULL {
        return None;
    }
    let buffer: Address = allocate_buffer(raw, READ_FRAME_BUF_BYTES);
    proof {
        t = ReadFrameAnswers { buffer, ..t };
        assert(channel_of.ensures((session.addr(),), t.channel));
    }
    if buffer == NULL {
        return None;
    }
    let codec = read_codec(raw);
    let fields = FrameFields {
        data: buffer,
        datalen: 0,
        buflen: READ_FRAME_BUF_BYTES as u32,
        samples: codec.samples,
        rate: codec.rate,
        channels: 1,
        codec: codec.codec,
    };
    proof {
        assert(fields == fresh_read_frame(buffer, codec));
    }
    install(frame, fields);
    let _ = store(channel, &key, frame);
    Some(frame)
}

/// A digit is the character whose code is its byte.
pub proof fn digits_are_their_bytes(digit: i8)
    ensures
        0 <= digit_char(digit) as int <= 255,
        (digit_char(digit) as int - digit) % 256 == 0,
{
}

/// A set contains another where it has each of its flags: no flag of the one is missing in the other.
pub proof fn sets_contain_each_flag(all: u32, some: u32, k: u32)
    requires
        some != 0,
        k < 32,
    ensures
        set_contains(all, some) <==> some & !all == 0,
        set_contains(all, some) && (some >> k) & 1 == 1 ==> (all >> k) & 1 == 1,
        (some >> k) & 1 == 1 && (all >> k) & 1 == 0 ==> !set_contains(all, some),
{
    assert(all & some == some <==> some & !all == 0) by (bit_vector);
    assert(all & some == some && (some >> k) & 1 == 1 ==> (all >> k) & 1 == 1) by (bit_vector);
}

/// The union of two sets of flags has a flag exactly where one of them has it.
pub proof fn union_has_the_flags_of_both(a: IoFlags, b: IoFlags, k: u32)
    requires
        k < 32,
    ensures
        (vstd::std_specs::ops::BitOrSpec::bitor_spec(a, b).0 >> k) & 1 == 1 <==> (a.0 >> k) & 1 == 1
            || (b.0 >> k) & 1 == 1,
{
    let x = a.0;
    let y = b.0;
    assert(((x | y) >> k) & 1 == 1 <==> (x >> k) & 1 == 1 || (y >> k) & 1 == 1) by (bit_vector);
}

/// The messages that answer a call and those that report its progress, by their numbers.
pub proof fn messages_are_told_by_number(m: MessageType)
    ensures
        m.answers() <==> m.0 == 2 || m.0 == 54,
        m.progresses() <==> m.0 == 4 || m.0 == 8 || m.0 == 9 || m.0 == 55 || m.0 == 56,
{
}

/// A table without routines has none of them.
pub proof fn empty_tables_have_no_routine(t: IoRoutines, i: int)
    requires
        no_routines(t),
        0 <= i < 10,
    ensures
        t.outgoing_channel is None,
        t.read_frame is None,
        t.write_frame is None,
        t.kill_channel is None,
        t.send_dtmf is None,
        t.receive_message is None,
        t.receive_event is None,
        t.state_change is None,
        t.read_video_frame is None,
        t.write_video_frame is None,
        t.read_text_frame is None,
        t.write_text_frame is None,
        t.state_run is None,
        t.get_jb is None,
        t.padding@[i] == 0,
{
}

/// What a handler decided on an outgoing call is what the core gets: its cause as the return value, the
/// cause and the session wherever there is room for them, and nothing is written where there is none. A
/// handler that did not decide has refused, with the cause of a channel that is not available.
pub proof fn outgoing_decisions_are_handed_back(
    result: Option<OutgoingResult>,
    new_session_out: Address,
    cause_out: Address,
)
    ensures
        result matches Some(d) ==> {
            let reply = outgoing_reply(result, new_session_out, cause_out);
            &&& reply.returned == d.cause.0
            &&& cause_out != 0 ==> reply.cause == Some(d.cause.0)
            &&& cause_out == 0 ==> reply.cause is None
            &&& new_session_out == 0 ==> reply.new_session is None
            &&& d.new_session is None ==> reply.new_session is None
            &&& d.new_session matches Some(s) ==> (new_session_out != 0 ==> reply.new_session
                == Some(s.addr()))
        },
        result is None ==> {
            let reply = outgoing_reply(result, new_session_out, cause_out);
            reply.returned == 44 && reply.new_session is None && reply.cause is None
        },
        refusal().returned == 44 && refusal().new_session is None && refusal().cause is None,
        result matches Some(d) ==> (d.is_refusal() <==> d.cause.0 == 44 && d.new_session is None),
{
}

/// A handler's status is what the core gets, and a handler that gave none has failed.
pub proof fn handler_statuses_are_handed_back(result: Option<Status>)
    ensures
        result matches Some(s) ==> handler_status(result) == s.0,
        result is None ==> handler_status(result) == 1,
{
}

/// Without a frame a callback fails. With one, the handler gets the session and the frame, and the core
/// gets its status.
pub proof fn frames_reach_their_handler<H>(
    handler: H,
    session: Address,
    frame: Address,
    status: RawStatus,
) where H: FnOnce(Session, Address) -> Option<Status>
    requires
        frame_handled(handler, session, frame, status),
    ensures
        frame == 0 ==> status == 1,
        frame != 0 ==> exists|s: Session, result: Option<Status>|
            s.addr() == session && #[trigger] handler.ensures((s, frame), result) && (
            result matches Some(x) ==> status == x.0) && (result is None ==> status == 1),
{
}

/// A fresh frame is an empty one over a buffer of 2048 bytes, with one channel and with the rate and the
/// samples of the codec that is read with.
pub proof fn fresh_frames_are_empty(buffer: Address, codec: ReadCodec)
    ensures
        fresh_read_frame(buffer, codec).data == buffer,
        fresh_read_frame(buffer, codec).datalen == 0,
        fresh_read_frame(buffer, codec).buflen == 2048,
        fresh_read_frame(buffer, codec).samples == codec.samples,
        fresh_read_frame(buffer, codec).rate == codec.rate,
        fresh_read_frame(buffer, codec).channels == 1,
        fresh_read_frame(buffer, codec).codec == codec.codec,
{
}

/// A session without a channel has no frame. One whose channel keeps a frame has that frame, and nothing
/// is made. Otherwise one is made, and the session has it where there was memory for both the frame and
/// its buffer.
pub proof fn read_frames_are_kept_or_made(a: ReadFrameAnswers)
    ensures
        a.channel == 0 ==> a.outcome() is None && !a.must_make() && !a.made(),
        a.channel != 0 && a.cached != 0 ==> a.outcome() == Some(a.cached) && !a.must_make()
            && !a.made(),
        a.channel != 0 && a.cached == 0 ==> a.must_make(),
        a.channel != 0 && a.cached == 0 && a.frame != 0 && a.buffer != 0 ==> a.made() && a.outcome()
            == Some(a.frame),
        a.channel != 0 && a.cached == 0 && (a.frame == 0 || a.buffer == 0) ==> !a.made()
            && a.outcome() is None,
{
}

} // verus!
