use fswtch::endpoint::{
    ensure_session_read_frame, kill_channel_trampoline, outgoing_trampoline, read_frame_trampoline,
    request_session, trampoline_panic_cause, trampoline_panic_status, write_frame_trampoline, Dtmf,
    DtmfFields, DtmfSource, EndpointInterfaceRef, EndpointIoBuilder, EndpointIoRoutines, FrameMut,
    IoFlags, IoRoutinesBuilder, MessageFields, MessageType, OutgoingReply, OutgoingResult, ReadCodec,
    ReadFrameReply, SessionMessage, StateHandlerTable, READ_FRAME_BUF_BYTES, READ_FRAME_KEY,
};
use fswtch::media::{FrameFields, FrameReply, FrameReplyMut, MediaFrame, MediaFrameMut};
use fswtch::session::Session;
use fswtch::status::{
    CallDirection, Cause, OriginateFlag, Status, SwitchError, CAUSE_REQUESTED_CHAN_UNAVAIL,
    CAUSE_SUCCESS, FALSE, GENERR, SUCCESS,
};
use std::cell::{Cell, RefCell};

#[test]
fn dtmf_roundtrip() {
    let d = Dtmf::new('#', 1600, DtmfSource(DtmfSource::APP)).unwrap().with_flags(0);
    assert_eq!(d.digit(), '#');
    assert_eq!(d.duration(), 1600);
    assert_eq!(d.source(), DtmfSource(DtmfSource::APP));
}

#[test]
fn io_flags_combine() {
    let f = IoFlags(IoFlags::NOBLOCK) | IoFlags(IoFlags::SINGLE_READ);
    assert!(f.contains(IoFlags(IoFlags::NOBLOCK)));
    assert!(f.contains(IoFlags(IoFlags::SINGLE_READ)));
    assert!(!f.contains(IoFlags(IoFlags::FORCE)));
}

#[test]
fn builder_starts_empty() {
    let b = IoRoutinesBuilder::new();
    assert!(b.inner.outgoing_channel.is_none());
    assert!(b.inner.read_frame.is_none());
    assert!(b.inner.get_jb.is_none());
    assert!(b.inner.padding.iter().all(|p| *p == 0));
    assert_eq!(IoRoutinesBuilder::default().inner, b.inner);
}

#[test]
fn build_returns_valid_pointer() {
    let r = IoRoutinesBuilder::new().kill_channel(Some(0x40)).build().expect("build");
    assert!(r.kill_channel.is_some());
    assert!(r.read_frame.is_none());
    assert!(r.padding.iter().all(|p| *p == 0));
}

#[test]
fn message_type_round_trip() {
    assert_eq!(
        MessageType::from_raw(MessageType(MessageType::INDICATE_ANSWER).raw()),
        MessageType(MessageType::INDICATE_ANSWER)
    );
    assert_eq!(MessageType(MessageType::INDICATE_ANSWER).raw(), 2);
    assert_eq!(MessageType(MessageType::INVALID).raw(), 61);
    let from_raw: MessageType = MessageType::TRANSMIT_TEXT.into();
    assert_eq!(from_raw, MessageType(MessageType::TRANSMIT_TEXT));
}

#[test]
fn message_type_predicates() {
    assert!(MessageType(MessageType::INDICATE_ANSWER).is_answer());
    assert!(MessageType(MessageType::ANSWER_EVENT).is_answer());
    assert!(!MessageType(MessageType::INDICATE_PROGRESS).is_answer());
    assert!(MessageType(MessageType::INDICATE_PROGRESS).is_progress());
    assert!(MessageType(MessageType::INDICATE_RINGING).is_progress());
    assert!(MessageType(MessageType::RING_EVENT).is_progress());
    assert!(!MessageType(MessageType::INDICATE_ANSWER).is_progress());
    assert!(MessageType(MessageType::TRANSMIT_TEXT).is_text());
    assert!(!MessageType(MessageType::INDICATE_INFO).is_text());
    assert!(MessageType(MessageType::INVALID).is_invalid());
    assert!(!MessageType(MessageType::INDICATE_ANSWER).is_invalid());
}

#[test]
fn dtmf_takes_ascii_digits_only() {
    for code in 0..=127u8 {
        let d = Dtmf::new(code as char, 1, DtmfSource(DtmfSource::RTP)).unwrap();
        assert_eq!((d.digit(), d.digit_raw(), d.flags()), (code as char, code as i8, 0));
    }
    for c in ['\u{80}', 'é', '€'] {
        assert_eq!(Dtmf::new(c, 1, DtmfSource(0)).unwrap_err(), SwitchError(Status(GENERR)));
    }
    let raw = DtmfFields { digit: -1, duration: 2, flags: 3, source: 4 };
    let d = Dtmf(raw);
    assert_eq!((d.digit(), d.into_inner(), *d.as_ptr()), ('\u{ff}', raw, raw));
}

#[test]
fn the_empty_flag_set_contains_only_itself() {
    let none = IoFlags::default();
    let some = IoFlags(IoFlags::FORCE | IoFlags::QUEUED);
    assert!(none.contains(none));
    assert!(!some.contains(none));
    assert!(!none.contains(some));
    let mut f = none;
    f |= some;
    assert_eq!(f.bits(), 12);
}

fn fields(text: Option<&[u8]>) -> MessageFields {
    MessageFields {
        message_id: 1,
        numeric_arg: -3,
        string_arg: text.map(|t| t.to_vec()),
        pointer_arg: 8,
        pointer_arg_size: 9,
        numeric_reply: 0,
        string_reply: 0,
        string_reply_size: 0,
        pointer_reply: 0,
        pointer_reply_size: 0,
    }
}

#[test]
fn messages_are_read_and_answered() {
    assert!(SessionMessage::from_raw(0, fields(None)).is_none());
    let mut m = SessionMessage::from_raw(4, fields(Some(b"hi"))).unwrap();
    assert_eq!((m.as_ptr(), m.message_id(), m.numeric_arg()), (4, MessageType(1), -3));
    assert_eq!((m.string_arg().as_deref(), m.pointer(), m.pointer_size()), (Some("hi"), 8, 9));
    *m.numeric_reply_mut() = 5;
    *m.string_reply_mut() = 6;
    *m.string_reply_size_mut() = 7;
    *m.pointer_reply_mut() = 8;
    *m.pointer_reply_size_mut() = 9;
    let f = m.current_fields();
    assert_eq!((f.numeric_reply, f.string_reply, f.string_reply_size), (5, 6, 7));
    assert_eq!((f.pointer_reply, f.pointer_reply_size, f.message_id), (8, 9, 1));
    assert_eq!(SessionMessage::from_raw(4, fields(Some(&[0xff]))).unwrap().string_arg(), None);
    assert_eq!(SessionMessage::from_raw(4, fields(None)).unwrap().string_arg(), None);
}

#[test]
fn every_routine_has_its_own_slot() {
    let t = IoRoutinesBuilder::new()
        .outgoing_channel(Some(1))
        .read_frame(Some(2))
        .write_frame(Some(3))
        .kill_channel(Some(4))
        .send_dtmf(Some(5))
        .receive_message(Some(6))
        .receive_event(Some(7))
        .state_change(Some(8))
        .read_video_frame(Some(9))
        .write_video_frame(Some(10))
        .read_text_frame(Some(11))
        .write_text_frame(Some(12))
        .state_run(Some(13))
        .get_jb(Some(14))
        .build()
        .unwrap();
    let slots = [
        t.outgoing_channel, t.read_frame, t.write_frame, t.kill_channel, t.send_dtmf,
        t.receive_message, t.receive_event, t.state_change, t.read_video_frame, t.write_video_frame,
        t.read_text_frame, t.write_text_frame, t.state_run, t.get_jb,
    ];
    for (i, slot) in slots.iter().enumerate() {
        assert_eq!(*slot, Some(i + 1));
    }
    let t = EndpointIoBuilder::build(1, 2, 3, 4).unwrap();
    let again = IoRoutinesBuilder::new()
        .outgoing_channel(Some(1))
        .read_frame(Some(2))
        .write_frame(Some(3))
        .kill_channel(Some(4))
        .build()
        .unwrap();
    assert_eq!(t, again);
    assert!(!std::ptr::eq(t, again));
    let s = StateHandlerTable::new_null();
    assert!(s.callbacks.iter().all(|p| *p == 0) && s.padding.iter().all(|p| *p == 0) && s.flags == 0);
}

#[test]
fn outgoing_legs_are_refused_or_handed_over() {
    let given_back = Cell::new(0);
    let refused = OutgoingReply { returned: CAUSE_REQUESTED_CHAN_UNAVAIL, new_session: None, cause: None };
    let r = outgoing_trampoline(1, 2, 3, 4, 5, "ep", |n| { assert_eq!(n.to_bytes(), b"ep"); 0 }, |_, _, _, _| panic!("not registered"), |_| panic!("nothing to give back"));
    assert_eq!(r, refused);
    let r = outgoing_trampoline(1, 2, 3, 4, 5, "e\0p", |_| panic!("no call"), |_, _, _, _| panic!("no call"), |_| panic!("no call"));
    assert_eq!(r, refused);
    let r = outgoing_trampoline(1, 2, 3, 4, 5, "ep", |_| 9, |_, _, _, _| None, |e| given_back.set(e));
    assert_eq!(given_back.take(), 9);
    assert_eq!(r, refused);
    let r = outgoing_trampoline(1, 0, 3, 4, 5, "ep", |_| 9, |s, p, e, o| {
        assert_eq!((s.unwrap().as_ptr(), p.is_none(), e.as_ptr(), o), (1, true, 9, OriginateFlag(4)));
        Some(OutgoingResult::success(Session::from_raw(77).unwrap()))
    }, |e| assert_eq!(e, 9));
    assert_eq!(r, OutgoingReply { returned: CAUSE_SUCCESS, new_session: Some(77), cause: Some(CAUSE_SUCCESS) });
    let r = outgoing_trampoline(0, 2, 0, 4, 0, "ep", |_| 9, |s, p, _, _| {
        assert_eq!((s.is_none(), p.unwrap().as_ptr()), (true, 2));
        Some(OutgoingResult::success(Session::from_raw(77).unwrap()))
    }, |e| assert_eq!(e, 9));
    assert_eq!(r, OutgoingReply { returned: CAUSE_SUCCESS, new_session: None, cause: None });
    let r = outgoing_trampoline(1, 2, 3, 4, 5, "ep", |_| 9, |_, _, _, _| Some(OutgoingResult::refused()), |e| given_back.set(e));
    assert_eq!(r, OutgoingReply { cause: Some(CAUSE_REQUESTED_CHAN_UNAVAIL), ..refused });
    assert_eq!(trampoline_panic_cause(), Cause(CAUSE_REQUESTED_CHAN_UNAVAIL));
    assert_eq!(trampoline_panic_status(), Status(FALSE));
}

#[test]
fn reads_find_their_frame() {
    let none = ReadFrameReply { status: FALSE, frame: None };
    let never = |_: Session| -> Option<usize> { panic!("no frame is needed") };
    assert_eq!(read_frame_trampoline(0, 1, 2, never, |_, _| panic!("no session")), none);
    assert_eq!(read_frame_trampoline(1, 0, 2, never, |_, _| panic!("no slot")), none);
    let r = read_frame_trampoline(1, 5, 2, never, |s, f| {
        assert_eq!((s.as_ptr(), f), (1, 2));
        Some(Status(SUCCESS))
    });
    assert_eq!(r, ReadFrameReply { status: SUCCESS, frame: None });
    let r = read_frame_trampoline(1, 5, 0, |s| { assert_eq!(s.as_ptr(), 1); Some(8) }, |_, f| { assert_eq!(f, 8); Some(Status(3)) });
    assert_eq!(r, ReadFrameReply { status: 3, frame: Some(8) });
    let r = read_frame_trampoline(1, 5, 0, |_| None, |_, _| panic!("no frame"));
    assert_eq!(r, none);
    let r = read_frame_trampoline(1, 5, 0, |_| Some(8), |_, _| None);
    assert_eq!(r, ReadFrameReply { status: FALSE, frame: Some(8) });
}

#[test]
fn writes_and_kills_need_a_session() {
    assert_eq!(write_frame_trampoline(0, 2, |_, _| panic!("no session")), FALSE);
    assert_eq!(write_frame_trampoline(1, 0, |_, _| panic!("no frame")), FALSE);
    assert_eq!(write_frame_trampoline(1, 2, |_, f| { assert_eq!(f, 2); Some(Status(SUCCESS)) }), SUCCESS);
    assert_eq!(write_frame_trampoline(1, 2, |_, _| None), FALSE);
    assert_eq!(kill_channel_trampoline(0, 9, |_, _| panic!("no session")), FALSE);
    assert_eq!(kill_channel_trampoline(1, 9, |_, s| { assert_eq!(s, 9); Some(Status(7)) }), 7);
    assert_eq!(kill_channel_trampoline(1, 9, |_, _| None), FALSE);
}

#[test]
fn references_to_endpoints_are_counted() {
    assert!(EndpointInterfaceRef::lookup("x\0", |_| panic!("no call")).is_none());
    assert!(EndpointInterfaceRef::lookup("x", |_| 0).is_none());
    let ep = EndpointInterfaceRef::lookup("x", |_| 12).unwrap();
    assert_eq!(ep.as_ptr(), 12);
    assert_eq!(EndpointInterfaceRef::unprotect(0, 5), None);
    assert_eq!(EndpointInterfaceRef::unprotect(1, 5), Some(4));
    assert_eq!(EndpointInterfaceRef::unprotect(1, 0), Some(0));
    assert_eq!(EndpointInterfaceRef::unprotect(1, -2), Some(-2));
    let s = request_session(&ep, CallDirection(1), OriginateFlag(2), |e, d, o| {
        assert_eq!((e, d, o), (12, 1, 2));
        44
    });
    assert_eq!(s.unwrap().as_ptr(), 44);
    assert!(request_session(&ep, CallDirection(1), OriginateFlag(2), |_, _, _| 0).is_none());
}

#[test]
fn a_read_frame_is_made_once_per_channel() {
    let session = Session::from_raw(1).unwrap();
    let stored = Cell::new(0usize);
    let allocated = RefCell::new(Vec::new());
    let installed = RefCell::new(Vec::new());
    let find = || {
        ensure_session_read_frame(
            &session,
            96,
            |s| { assert_eq!(s, 1); 10 },
            |c, k| { assert_eq!((c, k.to_bytes()), (10, READ_FRAME_KEY.as_bytes().to_vec())); stored.get() },
            |s, n| { allocated.borrow_mut().push((s, n)); 1000 + n },
            |s, n| { allocated.borrow_mut().push((s, n)); 1000 + n },
            |_| ReadCodec { rate: 8000, samples: 160, codec: 55 },
            |at, f| installed.borrow_mut().push((at, f)),
            |c, _, p| { assert_eq!(c, 10); stored.set(p); 0 },
        )
    };
    assert_eq!(find(), Some(1096));
    assert_eq!(find(), Some(1096));
    assert_eq!(*allocated.borrow(), vec![(1, 96), (1, READ_FRAME_BUF_BYTES)]);
    let expected = FrameFields { data: 1000 + READ_FRAME_BUF_BYTES, datalen: 0, buflen: 2048, samples: 160, rate: 8000, channels: 1, codec: 55 };
    assert_eq!(*installed.borrow(), vec![(1096, expected)]);
}

#[test]
fn a_read_frame_needs_a_channel_and_memory() {
    let session = Session::from_raw(1).unwrap();
    let codec = |_: usize| -> ReadCodec { panic!("no frame was made") };
    let r = ensure_session_read_frame(&session, 96, |_| 0, |_, _| panic!("no channel"), |_, _| panic!("no channel"), |_, _| panic!("no channel"), codec, |_, _| {}, |_, _, _| 0);
    assert_eq!(r, None);
    let r = ensure_session_read_frame(&session, 96, |_| 10, |_, _| 0, |_, _| 0, |_, _| panic!("no frame"), codec, |_, _| {}, |_, _, _| 0);
    assert_eq!(r, None);
    let r = ensure_session_read_frame(&session, 96, |_| 10, |_, _| 0, |_, _| 5, |_, _| 0, codec, |_, _| {}, |_, _, _| 0);
    assert_eq!(r, None);
}

struct Quiet;

impl EndpointIoRoutines for Quiet {
    fn name() -> &'static str {
        "quiet"
    }
}

#[test]
fn endpoints_have_safe_defaults() {
    let session = Session::from_raw(1).unwrap();
    let ep = EndpointInterfaceRef::from_raw(2).unwrap();
    let out = Quiet::outgoing_channel(Some(&session), None, &ep, OriginateFlag(0));
    assert_eq!((out.cause, out.new_session.is_none()), (Cause(CAUSE_REQUESTED_CHAN_UNAVAIL), true));
    let f = FrameFields { data: 0, datalen: 0, buflen: 0, samples: 0, rate: 0, channels: 0, codec: 0 };
    let mut now = f;
    let mut memory = [];
    let mut frame: FrameMut = MediaFrameMut::from_raw(FrameReplyMut { raw: 3, fields: &mut now, memory: &mut memory }).unwrap();
    assert_eq!(Quiet::read_frame(&session, &mut frame), Status(SUCCESS));
    let frame = MediaFrame::from_raw(FrameReply { raw: 3, fields: f, memory: &[] }).unwrap();
    assert_eq!(Quiet::write_frame(&session, &frame), Status(SUCCESS));
    assert_eq!(Quiet::kill_channel(&session, 9), Status(SUCCESS));
    assert_eq!(Quiet::name(), "quiet");
}
