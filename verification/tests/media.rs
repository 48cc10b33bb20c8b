use fswtch::handle::Created;
use fswtch::media::{
    attach_media_bug, callback_result, count_media_bugs, frame_alloc, frame_dup, frame_free,
    media_bug_trampoline, parse_spy_fmt, pop_media_bug, remove_media_bug, BugEvent, BugStep, Delivery,
    FrameFields, FrameReply, FrameReplyMut, MediaBug, MediaBugAction, MediaBugConfig,
    MediaBugContext, MediaBugDispatch, MediaBugFlags, MediaBugHandler, MediaFrame, MediaFrameMut,
    ABC_TYPE_CLOSE, ABC_TYPE_INIT, ABC_TYPE_READ, ABC_TYPE_READ_REPLACE, ABC_TYPE_WRITE,
    ABC_TYPE_WRITE_REPLACE,
};
use fswtch::session::Session;
use fswtch::status::{Status, SwitchError, GENERR, SWITCH_FALSE, SWITCH_TRUE};
use std::cell::Cell;

fn fields(data: usize, datalen: u32, buflen: u32, samples: u32) -> FrameFields {
    FrameFields { data, datalen, buflen, samples, rate: 8000, channels: 1, codec: 0 }
}

#[test]
fn frames_show_their_payload() {
    let memory = [1u8, 2, 3, 4, 5, 6];
    let f = MediaFrame::from_raw(FrameReply { raw: 9, fields: fields(0x1000, 4, 6, 3), memory: &memory }).unwrap();
    assert_eq!((f.as_ptr(), f.data_len(), f.samples(), f.rate(), f.channels()), (9, 4, 3, 8000, 1));
    assert_eq!(f.bytes(), [1, 2, 3, 4]);
    assert_eq!(f.pcm_i16(), Some(&[1u8, 2, 3, 4][..]));
    assert!(MediaFrame::from_raw(FrameReply { raw: 0, fields: fields(0, 0, 0, 0), memory: &[] }).is_none());
    let none = MediaFrame::from_raw(FrameReply { raw: 9, fields: fields(0, 4, 6, 3), memory: &[] }).unwrap();
    assert_eq!((none.bytes(), none.pcm_i16()), (&[][..], None));
    let odd = MediaFrame::from_raw(FrameReply { raw: 9, fields: fields(0x1000, 3, 6, 3), memory: &memory }).unwrap();
    assert_eq!((odd.bytes().len(), odd.pcm_i16()), (3, None));
    let off = MediaFrame::from_raw(FrameReply { raw: 9, fields: fields(0x1001, 4, 6, 3), memory: &memory }).unwrap();
    assert_eq!(off.pcm_i16(), None);
}

fn output(data: usize, buflen: u32, samples: u32) -> (Option<usize>, u32) {
    let mut memory = vec![0u8; buflen as usize];
    let mut now = fields(data, 77, buflen, samples);
    let mut f = MediaFrameMut::from_raw(FrameReplyMut { raw: 9, fields: &mut now, memory: &mut memory }).unwrap();
    let len = f.pcm_i16_output().map(|s| s.len());
    assert_eq!(f.datalen_field(), f.current_fields().datalen);
    (len, now.datalen)
}

#[test]
fn output_is_sized_by_codec_and_buffer() {
    assert_eq!(output(0x1000, 2048, 160), (Some(320), 320));
    assert_eq!(output(0x1000, 100, 160), (Some(100), 100));
    assert_eq!(output(0x1000, 101, 160), (Some(100), 100));
    assert_eq!(output(0x1000, 2048, 0), (None, 77));
    assert_eq!(output(0x1000, 1, 160), (None, 77));
    assert_eq!(output(0x1000, 0, 160), (None, 77));
    assert_eq!(output(0x1001, 2048, 160), (None, 77));
    assert_eq!(output(0, 2048, 160), (None, 77));
}

#[test]
fn what_is_written_can_be_read() {
    let mut memory = vec![0xaau8; 8];
    let mut now = fields(0x1000, 0, 8, 2);
    let mut f = MediaFrameMut::from_raw(FrameReplyMut { raw: 9, fields: &mut now, memory: &mut memory }).unwrap();
    f.pcm_i16_output().unwrap().copy_from_slice(&[1, 2, 3, 4]);
    assert_eq!(f.as_frame().pcm_i16(), Some(&[1u8, 2, 3, 4][..]));
    f.bytes_mut()[0] = 9;
    f.pcm_i16_mut().unwrap()[1] = 8;
    f.set_samples(1);
    f.set_datalen(2);
    assert_eq!((f.samples_field(), f.buflen_field(), f.datalen_field(), f.as_ptr()), (1, 8, 2, 9));
    assert_eq!(f.as_frame().bytes(), [9, 8]);
    assert_eq!(f.current_fields(), fields(0x1000, 2, 8, 1));
    f.set_datalen(3);
    assert!(f.pcm_i16_mut().is_none());
    assert_eq!(now, fields(0x1000, 3, 8, 1));
    assert_eq!(memory, [9, 8, 3, 4, 0xaa, 0xaa, 0xaa, 0xaa]);
}

#[test]
fn callbacks_are_routed() {
    let routes = [
        (ABC_TYPE_INIT, BugStep::Init),
        (ABC_TYPE_READ, BugStep::Read),
        (ABC_TYPE_WRITE, BugStep::Write),
        (ABC_TYPE_READ_REPLACE, BugStep::ReadReplace),
        (ABC_TYPE_WRITE_REPLACE, BugStep::WriteReplace),
        (ABC_TYPE_CLOSE, BugStep::Close),
        (5, BugStep::Keep),
        (99, BugStep::Keep),
    ];
    for (kind, step) in routes {
        assert_eq!(media_bug_trampoline(1, 2, kind), step);
        assert_eq!(media_bug_trampoline(0, 2, kind), BugStep::Keep);
        assert_eq!(media_bug_trampoline(1, 0, kind), BugStep::Keep);
    }
    assert_eq!(callback_result(Some(MediaBugAction::Continue), || panic!("no panic")), SWITCH_TRUE);
    assert_eq!(callback_result(Some(MediaBugAction::Stop), || panic!("no panic")), SWITCH_FALSE);
    let logged = Cell::new(false);
    assert_eq!(callback_result(None, || logged.set(true)), SWITCH_FALSE);
    assert!(logged.get());
}

struct Idle;

impl MediaBugHandler for Idle {}

#[derive(Default)]
struct Recorder {
    seen: Vec<(&'static str, usize)>,
}

impl MediaBugHandler for Recorder {
    fn on_init(&mut self, ctx: &mut MediaBugContext) -> MediaBugAction {
        self.seen.push(("init", ctx.as_ptr()));
        MediaBugAction::Continue
    }

    fn on_read(&mut self, _ctx: &mut MediaBugContext, frame: MediaFrame<'_>) -> MediaBugAction {
        self.seen.push(("read", frame.as_ptr()));
        MediaBugAction::Stop
    }

    fn on_write(&mut self, _ctx: &mut MediaBugContext, frame: MediaFrame<'_>) -> MediaBugAction {
        self.seen.push(("write", frame.as_ptr()));
        MediaBugAction::Stop
    }

    fn on_read_replace(&mut self, _ctx: &mut MediaBugContext, mut frame: MediaFrameMut<'_>) -> MediaBugAction {
        frame.set_samples(80);
        self.seen.push(("read_replace", frame.as_ptr()));
        MediaBugAction::Stop
    }

    fn on_write_replace(&mut self, _ctx: &mut MediaBugContext, frame: MediaFrameMut<'_>) -> MediaBugAction {
        self.seen.push(("write_replace", frame.as_ptr()));
        MediaBugAction::Stop
    }

    fn on_close(&mut self, ctx: &mut MediaBugContext) {
        self.seen.push(("close", ctx.as_ptr()));
    }
}

#[test]
fn handlers_are_called_for_their_frames() {
    let mut d = MediaBugDispatch { ctx: MediaBugContext::from_raw(7).unwrap() };
    let f = fields(0, 0, 0, 0);
    let reply = |raw| FrameReply { raw, fields: f, memory: &[] };
    let mut h = Recorder::default();
    let (mut a, mut b, mut c) = (f, f, f);
    assert_eq!(d.run(&mut h, BugEvent::Init), MediaBugAction::Continue);
    assert_eq!(d.run(&mut h, BugEvent::Read(reply(1))), MediaBugAction::Stop);
    assert_eq!(d.run(&mut h, BugEvent::Write(reply(2))), MediaBugAction::Stop);
    assert_eq!(d.run(&mut h, BugEvent::ReadReplace(FrameReplyMut { raw: 3, fields: &mut a, memory: &mut [] })), MediaBugAction::Stop);
    assert_eq!(d.run(&mut h, BugEvent::WriteReplace(FrameReplyMut { raw: 4, fields: &mut b, memory: &mut [] })), MediaBugAction::Stop);
    assert_eq!(d.run(&mut h, BugEvent::Read(reply(0))), MediaBugAction::Continue);
    assert_eq!(d.run(&mut h, BugEvent::Write(reply(0))), MediaBugAction::Continue);
    assert_eq!(d.run(&mut h, BugEvent::WriteReplace(FrameReplyMut { raw: 0, fields: &mut c, memory: &mut [] })), MediaBugAction::Continue);
    assert_eq!(d.run(&mut h, BugEvent::Other), MediaBugAction::Continue);
    h.on_close(&mut d.ctx);
    assert_eq!((a.samples, b.samples), (80, 0));
    assert_eq!(h.seen, vec![("init", 7), ("read", 1), ("write", 2), ("read_replace", 3), ("write_replace", 4), ("close", 7)]);
    assert_eq!(d.run(&mut Idle, BugEvent::Read(reply(1))), MediaBugAction::Continue);
    Idle.on_close(&mut d.ctx);
}

#[test]
fn an_event_delivers_its_frame() {
    let f = fields(0x1000, 2, 2, 1);
    let memory = [7u8, 8];
    match BugEvent::Write(FrameReply { raw: 4, fields: f, memory: &memory }).delivery() {
        Delivery::Write(frame) => assert_eq!((frame.as_ptr(), frame.bytes()), (4, &memory[..])),
        _ => panic!("a frame was written"),
    }
    let (mut now, mut bytes) = (f, [1u8, 2]);
    match BugEvent::ReadReplace(FrameReplyMut { raw: 5, fields: &mut now, memory: &mut bytes }).delivery() {
        Delivery::ReadReplace(mut frame) => frame.bytes_mut()[1] = 9,
        _ => panic!("a frame is replaced"),
    }
    assert_eq!(bytes, [1, 9]);
    assert!(matches!(BugEvent::Init.delivery(), Delivery::Init));
    assert!(matches!(BugEvent::Other.delivery(), Delivery::Nothing));
    assert!(matches!(BugEvent::Read(FrameReply { raw: 0, fields: f, memory: &[] }).delivery(), Delivery::Nothing));
}

#[test]
fn a_handler_is_freed_unless_the_core_took_it() {
    let session = Session::from_raw(3).unwrap();
    let flags = MediaBugFlags(MediaBugFlags::READ_STREAM) | MediaBugFlags(MediaBugFlags::NO_PAUSE);
    let config = MediaBugConfig::new("meter", "read", flags).unwrap().stop_time(60);
    let freed = Cell::new(0);
    let bug = attach_media_bug(session, &config, 500, |s, f, t, u, e, b| {
        assert_eq!((s, f.to_bytes(), t.to_bytes()), (3, b"meter".to_vec(), b"read".to_vec()));
        assert_eq!((u, e, b), (500, 60, 1025));
        Created { status: 0, raw: 8 }
    }, |_| panic!("the core owns the handler"));
    assert_eq!(bug.unwrap().as_ptr(), 8);
    let bug = attach_media_bug(session, &config, 500, |_, _, _, _, _, _| Created { status: 4, raw: 8 }, |s| freed.set(s));
    assert_eq!((bug.unwrap_err(), freed.take()), (SwitchError(Status(4)), 500));
    let bug = attach_media_bug(session, &config, 500, |_, _, _, _, _, _| Created { status: 0, raw: 0 }, |s| freed.set(s));
    assert_eq!((bug.unwrap_err(), freed.take()), (SwitchError(Status(GENERR)), 500));
    assert!(MediaBugConfig::new("m\0", "t", flags).is_err());
    assert!(MediaBugConfig::new("m", "\0", flags).is_err());
}

#[test]
fn bugs_of_a_session_are_handled_by_name() {
    let session = Session::from_raw(3).unwrap();
    assert_eq!(count_media_bugs(session, "m", |s, f| { assert_eq!((s, f.to_bytes()), (3, b"m".to_vec())); 2 }), Ok(2));
    assert!(count_media_bugs(session, "\0", |_, _| panic!("no call")).is_err());
    assert_eq!(pop_media_bug(session, "m", |_, _| Created { status: 0, raw: 0 }).unwrap().is_none(), true);
    assert_eq!(pop_media_bug(session, "m", |_, _| Created { status: 0, raw: 5 }).unwrap().unwrap().as_ptr(), 5);
    assert_eq!(pop_media_bug(session, "m", |_, _| Created { status: 1, raw: 5 }).unwrap_err(), SwitchError(Status(1)));
    let mut bug = MediaBug::from_raw(5).unwrap();
    assert_eq!(remove_media_bug(session, &mut bug, |s, b| { assert_eq!((s, b), (3, 5)); 0 }), Ok(()));
    assert_eq!(bug.close(true, |b, d| { assert_eq!((b, d), (5, SWITCH_TRUE)); 0 }), Ok(()));
    assert!(bug.test_flag(MediaBugFlags(4), |_, f| f));
    assert_eq!(bug.inuse(|_| (3, 4)), (3, 4));
    assert_eq!(parse_spy_fmt("split", |n| { assert_eq!(n.to_bytes(), b"split"); 2 }), Ok(2));
    let mut flags = MediaBugFlags(1);
    flags |= MediaBugFlags(2);
    assert_eq!(flags.bits(), 3);
}

#[test]
fn raw_frames_live_in_a_slot() {
    let mut slot = 0;
    assert_eq!(frame_alloc(&mut slot, 99, |s, n| { assert_eq!((s, n), (0, 99)); Created { status: 0, raw: 4 } }), Ok(()));
    let mut copy = 0;
    assert_eq!(frame_dup(slot, &mut copy, |o, c| { assert_eq!((o, c), (4, 0)); Created { status: 0, raw: 6 } }), Ok(()));
    assert_eq!(frame_free(&mut slot, |s| { assert_eq!(s, 4); Created { status: 0, raw: 0 } }), Ok(()));
    assert_eq!((slot, copy), (0, 6));
}

#[test]
fn contexts_reach_their_frames() {
    let mut ctx = MediaBugContext::from_raw(7).unwrap();
    let f = fields(0, 0, 0, 0);
    assert_eq!(ctx.session(|b| { assert_eq!(b, 7); 12 }).unwrap().as_ptr(), 12);
    assert!(ctx.native_read_frame(|_| FrameReply { raw: 0, fields: f, memory: &[] }).is_none());
    assert_eq!(ctx.native_write_frame(|_| FrameReply { raw: 2, fields: f, memory: &[] }).unwrap().as_ptr(), 2);
    let mut memory = [0u8; 2];
    let mut now = f;
    let mut frame = ctx.read_replace_frame(|_| FrameReplyMut { raw: 5, fields: &mut now, memory: &mut memory }).unwrap();
    let set = Cell::new((0, 0));
    ctx.set_write_replace_frame(&mut frame, |b, f| set.set((b, f)));
    assert_eq!(set.get(), (7, 5));
    assert_eq!(ctx.read_into(33, false, |b, f, fill| { assert_eq!((b, f, fill), (7, 33, SWITCH_FALSE)); 2 }), Err(SwitchError(Status(2))));
}
