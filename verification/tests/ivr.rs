use fswtch::channel::Filled;
use fswtch::handle::Created;
use fswtch::ivr::{
    hold_uuid, kill_uuid, schedule_broadcast, schedule_hangup, schedule_transfer,
    speech_float_param_tts, speech_read_tts, uuid_exists, DigitActionTarget, DigitMachine, IvrMenu,
    IvrMenuConfig, MediaFlag, Originated, CHANNEL_FLAG_HOLD,
};
use fswtch::pool::Pool;
use fswtch::session::Session;
use fswtch::status::{Cause, Status, SwitchError, GENERR, SWITCH_FALSE, SWITCH_TRUE};
use std::cell::Cell;

fn generic() -> SwitchError {
    SwitchError(Status(GENERR))
}

#[test]
fn media_flag_raw_roundtrip() {
    assert_eq!(MediaFlag(MediaFlag::NONE).bits(), 0);
    assert_eq!(MediaFlag(MediaFlag::FORCE).bits(), MediaFlag::FORCE);
    assert_eq!(MediaFlag::from_raw(MediaFlag::PRIORITY).bits(), MediaFlag(MediaFlag::PRIORITY).bits());
    assert_eq!(MediaFlag::from_raw(MediaFlag::IMMEDIATE), MediaFlag(MediaFlag::IMMEDIATE));
}

#[test]
fn media_flag_combine_and_contains() {
    let f = MediaFlag(MediaFlag::FORCE) | MediaFlag(MediaFlag::REBRIDGE);
    assert!(f.contains(MediaFlag(MediaFlag::FORCE)));
    assert!(f.contains(MediaFlag(MediaFlag::REBRIDGE)));
    assert!(!f.contains(MediaFlag(MediaFlag::LOOP)));
    assert!(MediaFlag(MediaFlag::NONE).contains(MediaFlag(MediaFlag::NONE)));
    assert!(!f.contains(MediaFlag(MediaFlag::NONE)));
}

#[test]
fn media_flag_bitor_assign() {
    let mut f = MediaFlag(MediaFlag::ECHO_ALEG);
    f |= MediaFlag(MediaFlag::ECHO_BLEG);
    assert_eq!(f.bits(), MediaFlag::ECHO_ALEG | MediaFlag::ECHO_BLEG);
    assert!(f.contains(MediaFlag(MediaFlag::ECHO_ALEG)));
    assert!(f.contains(MediaFlag(MediaFlag::ECHO_BLEG)));
}

#[test]
fn digit_action_target_raw_roundtrip() {
    assert_eq!(DigitActionTarget(DigitActionTarget::SELF).raw(), DigitActionTarget::SELF);
    assert_eq!(DigitActionTarget(DigitActionTarget::PEER).raw(), DigitActionTarget::PEER);
    assert_eq!(DigitActionTarget(DigitActionTarget::BOTH).raw(), DigitActionTarget::BOTH);
    assert_eq!(DigitActionTarget::from_raw(DigitActionTarget::PEER), DigitActionTarget(DigitActionTarget::PEER));
    assert_eq!(
        DigitActionTarget::from_raw(DigitActionTarget::BOTH).raw(),
        DigitActionTarget(DigitActionTarget::BOTH).raw()
    );
    let t: DigitActionTarget = 1u32.into();
    assert_eq!(t, DigitActionTarget(DigitActionTarget::PEER));
}

#[test]
fn digit_action_target_predicates() {
    assert!(DigitActionTarget(DigitActionTarget::SELF).is_self());
    assert!(!DigitActionTarget(DigitActionTarget::SELF).is_peer());

    assert!(DigitActionTarget(DigitActionTarget::PEER).is_peer());
    assert!(!DigitActionTarget(DigitActionTarget::PEER).is_self());

    assert!(DigitActionTarget(DigitActionTarget::BOTH).is_self());
    assert!(DigitActionTarget(DigitActionTarget::BOTH).is_peer());
}

#[test]
fn flags_and_targets_have_the_numbers_of_the_core() {
    let flags = [
        MediaFlag::NONE,
        MediaFlag::REBRIDGE,
        MediaFlag::ECHO_ALEG,
        MediaFlag::ECHO_BLEG,
        MediaFlag::FORCE,
        MediaFlag::LOOP,
        MediaFlag::HOLD_BLEG,
        MediaFlag::IMMEDIATE,
        MediaFlag::EXEC_INLINE,
        MediaFlag::PRIORITY,
        MediaFlag::REPLYONLY_A,
        MediaFlag::REPLYONLY_B,
    ];
    assert_eq!(flags, [0, 1, 2, 4, 8, 16, 32, 64, 128, 256, 512, 1024]);
    assert_eq!([DigitActionTarget::SELF, DigitActionTarget::PEER, DigitActionTarget::BOTH], [0, 1, 2]);
    assert_eq!(MediaFlag::from_raw(256).bits(), 256);
    assert_eq!(DigitActionTarget::from_raw(2).raw(), 2);
}

#[test]
fn menus_hand_every_text_over() {
    let pool = Pool::from_raw(2).unwrap();
    let config = IvrMenuConfig {
        greeting_sound: "g",
        short_greeting_sound: "s",
        invalid_sound: "i",
        exit_sound: "e",
        transfer_sound: "t",
        confirm_macro: "m",
        confirm_key: "k",
        tts_engine: "f",
        tts_voice: "v",
        confirm_attempts: 1,
        inter_timeout: 2,
        digit_len: 3,
        timeout: 4,
        max_failures: 5,
        max_timeouts: 6,
        ..IvrMenuConfig::minimal("main")
    };
    let menu = IvrMenu::new(&pool, &config, |q| {
        let texts = [
            q.name, q.greeting_sound, q.short_greeting_sound, q.invalid_sound, q.exit_sound,
            q.transfer_sound, q.confirm_macro, q.confirm_key, q.tts_engine, q.tts_voice,
        ];
        let texts: Vec<String> = texts.iter().map(|t| t.to_str().unwrap()).collect();
        assert_eq!(texts, ["main", "g", "s", "i", "e", "t", "m", "k", "f", "v"]);
        assert_eq!((q.confirm_attempts, q.inter_timeout, q.digit_len), (1, 2, 3));
        assert_eq!((q.timeout, q.max_failures, q.max_timeouts), (4, 5, 6));
        assert_eq!((q.main, q.pool), (0, 2));
        Created { status: 0, raw: 30 }
    })
    .unwrap();
    let sub = IvrMenu::new_sub(&menu, &pool, &IvrMenuConfig::minimal("sub"), |q| {
        assert_eq!((q.main, q.tts_voice.to_bytes().len(), q.timeout), (30, 0, 0));
        Created { status: 0, raw: 31 }
    })
    .unwrap();
    assert_eq!((menu.as_ptr(), sub.as_ptr()), (30, 31));
    let bad = IvrMenuConfig { tts_voice: "\0", ..IvrMenuConfig::minimal("x") };
    assert_eq!(IvrMenu::new(&pool, &bad, |_| panic!("no call")).unwrap_err(), generic());
    let r = IvrMenu::new(&pool, &IvrMenuConfig::minimal("x"), |_| Created { status: 0, raw: 0 });
    assert_eq!(r.unwrap_err(), generic());
    let r = IvrMenu::new(&pool, &IvrMenuConfig::minimal("x"), |_| Created { status: 3, raw: 9 });
    assert_eq!(r.unwrap_err(), SwitchError(Status(3)));
    let session = Session::from_raw(8).unwrap();
    assert_eq!(menu.execute(session, "main", 5, |s, m, n, o| {
        assert_eq!((s, m, n.to_bytes(), o), (8, 30, b"main".to_vec(), 5));
        0
    }), Ok(()));
}

#[test]
fn digit_machines_find_matches() {
    let pool = Pool::from_raw(2).unwrap();
    let dm = DigitMachine::new("dm", &pool, 100, 200, 1, 0, 3, |n, p, d, i, m, x, u| {
        assert_eq!((n.to_bytes(), p, d, i, m, x, u), (b"dm".to_vec(), 2, 100, 200, 1, 0, 3));
        Created { status: 0, raw: 40 }
    })
    .unwrap();
    assert_eq!(dm.bind("r", "1*", true, -7, 0, 0, |a, r, d, p, k, c, u| {
        assert_eq!((a, r.to_bytes(), d.to_bytes(), p, k, c, u), (40, b"r".to_vec(), b"1*".to_vec(), 1, -7, 0, 0));
        0
    }), Ok(()));
    let m = dm.feed("12", |_, d| { assert_eq!(d.to_bytes(), b"12"); Created { status: 0, raw: 41 } }).unwrap().unwrap();
    assert_eq!((m.as_ptr(), m.match_key(|_| -7), m.match_digits(|_| Some(b"12".to_vec()))), (41, -7, Some("12".to_owned())));
    assert!(dm.feed("1", |_, _| Created { status: 0, raw: 0 }).unwrap().is_none());
    assert_eq!(dm.feed("1", |_, _| Created { status: 1, raw: 5 }).unwrap_err(), SwitchError(Status(1)));
    assert_eq!(dm.feed("\0", |_, _| panic!("no call")).unwrap_err(), generic());
    assert_eq!(dm.ping(|_| Created { status: 0, raw: 6 }).unwrap().unwrap().as_ptr(), 6);
    assert!(dm.get_match(|_| 0).is_none());
    assert_eq!(dm.get_target(|_| 2), DigitActionTarget(2));
    assert!(dm.is_parsing(|_| SWITCH_TRUE));
}

#[test]
fn schedules_need_clean_texts() {
    assert_eq!(schedule_broadcast(5, "u", "p", 3, |t, u, p, f| {
        assert_eq!((t, u.to_bytes(), p.to_bytes(), f), (5, b"u".to_vec(), b"p".to_vec(), 3));
        17
    }), 17);
    assert_eq!(schedule_broadcast(5, "u\0", "p", 3, |_, _, _, _| panic!("no call")), 0);
    assert_eq!(schedule_broadcast(5, "u", "\0", 3, |_, _, _, _| panic!("no call")), 0);
    assert_eq!(schedule_hangup(5, "u", Cause(16), true, |_, _, c, b| { assert_eq!((c, b), (16, SWITCH_TRUE)); 4 }), 4);
    assert_eq!(schedule_hangup(5, "\0", Cause(16), true, |_, _, _, _| panic!("no call")), 0);
    assert_eq!(schedule_transfer(5, "u", 1, 2, 3, |_, _, a, b, c| { assert_eq!((a, b, c), (1, 2, 3)); 6 }), 6);
    assert_eq!(schedule_transfer(5, "\0", 1, 2, 3, |_, _, _, _, _| panic!("no call")), 0);
    assert_eq!(uuid_exists("u", |_| SWITCH_FALSE), Ok(false));
    assert_eq!(uuid_exists("u", |_| SWITCH_TRUE), Ok(true));
    assert_eq!(hold_uuid("u", "m", false, |_, _, h| { assert_eq!(h, SWITCH_FALSE); 0 }), Ok(()));
    assert_eq!(kill_uuid("u", Cause(16), |_, c| { assert_eq!(c, 16); 1 }), Err(SwitchError(Status(1))));
}

#[test]
fn digits_are_counted_to_the_terminator() {
    let s = Session::from_raw(8).unwrap();
    let mut buf = [0xffu8; 6];
    let mut count = 99;
    let mut term = String::from("old");
    let r = s.collect_digits_count(&mut buf, 4, "#", 1, 2, 3, &mut count, &mut term, |a, room, max, t, f, d, b| {
        assert_eq!((a, room, max, t.to_bytes(), f, d, b), (8, 6, 4, b"#".to_vec(), 1, 2, 3));
        (Filled { status: 0, bytes: b"12\0".to_vec() }, b'#')
    });
    assert_eq!((r, count, term.as_str(), &buf[..3]), (Ok(()), 2, "#", &b"12\0"[..]));
    let r = s.collect_digits_count(&mut buf, 4, "", 1, 2, 3, &mut count, &mut term, |_, _, _, _, _, _, _| {
        (Filled { status: 2, bytes: b"123456".to_vec() }, 0)
    });
    assert_eq!((r, count, term.as_str()), (Err(SwitchError(Status(2))), 6, ""));
    let r = s.collect_digits_count(&mut buf, 4, "\0", 1, 2, 3, &mut count, &mut term, |_, _, _, _, _, _, _| panic!("no call"));
    assert_eq!((r, count), (Err(generic()), 6));
    let r = s.read(1, 4, "p", "v", &mut buf, 5, "#", 6, &mut count, |a, lo, hi, p, v, room, t, x, d| {
        assert_eq!((a, lo, hi, room, t, d), (8, 1, 4, 6, 5, 6));
        assert_eq!((p.to_bytes(), v.to_bytes(), x.to_bytes()), (b"p".to_vec(), b"v".to_vec(), b"#".to_vec()));
        Filled { status: 0, bytes: b"9\0".to_vec() }
    });
    assert_eq!((r, count), (Ok(()), 1));
}

#[test]
fn calls_are_originated() {
    let s = Session::from_raw(8).unwrap();
    let o = s.originate("user/1000", 30, Some("name"), None, |a, q| {
        assert_eq!((a, q.bridge_to.to_bytes(), q.timelimit_sec), (8, b"user/1000".to_vec(), 30));
        assert_eq!((q.cid_name.unwrap().to_bytes(), q.cid_num.is_none()), (b"name".to_vec(), true));
        assert_eq!((q.table, q.caller_profile_override, q.ovars, q.flags, q.dh), (0, 0, 0, 0, 0));
        Originated { status: 0, peer: 9, cause: 16, cancel_cause: 0 }
    })
    .unwrap();
    assert_eq!((o.peer.unwrap().as_ptr(), o.cause, o.cancel_cause), (9, Cause(16), Cause(0)));
    let e = s.originate("x", 0, None, None, |_, _| Originated { status: 1, peer: 9, cause: 0, cancel_cause: 0 });
    assert_eq!(e.unwrap_err(), SwitchError(Status(1)));
    assert_eq!(s.originate("x", 0, None, Some("\0"), |_, _| panic!("no call")).unwrap_err(), generic());
    let peer = Session::from_raw(9).unwrap();
    assert_eq!(s.multi_threaded_bridge(peer, |a, b, c, d, e| { assert_eq!((a, b, c, d, e), (8, 9, 0, 0, 0)); 0 }), Ok(()));
}

#[test]
fn sessions_do_what_they_are_told() {
    let s = Session::from_raw(8).unwrap();
    assert_eq!(s.record_file("/tmp/x.wav", 5, |a, p, l| { assert_eq!((a, p.to_bytes(), l), (8, b"/tmp/x.wav".to_vec(), 5)); 0 }), Ok(()));
    assert_eq!(s.record_file("\0", 5, |_, _, _| panic!("no call")), Err(generic()));
    assert_eq!(s.park(|_| 1), Err(SwitchError(Status(1))));
    let looked = Cell::new(false);
    assert!(s.check_hold(|_| looked.set(true), |_| 4, |c, f| { assert_eq!((c, f), (4, CHANNEL_FLAG_HOLD)); 1 }));
    assert!(looked.get());
    assert!(!s.check_hold(|_| {}, |_| 0, |_, _| panic!("no channel")));
    assert!(!s.check_hold(|_| {}, |_| 4, |_, _| 0));
    let sent = Cell::new((0, 0, 0));
    assert_eq!(s.broadcast_in_thread("app", 7, |a, t| { assert_eq!((a, t.to_bytes()), (8, b"app".to_vec())); 50 }, |a, p, f| sent.set((a, p, f))), Ok(()));
    assert_eq!(sent.get(), (8, 50, 7));
    assert_eq!(s.broadcast_in_thread("app", 7, |_, _| 0, |_, _, _| panic!("not copied")), Err(generic()));
    assert_eq!(s.eavesdrop_pop_eavesdropper(|_| Created { status: 0, raw: 0 }).unwrap().is_none(), true);
    assert_eq!(s.say("1", "en", "NUMBER", "PRONOUNCED", None, |_, _, _, _, _, g| { assert!(g.is_none()); 0 }), Ok(()));
    assert_eq!(s.say_string(None, Some("x"), "1", "en", "NUMBER", "PRONOUNCED", None, |a, l, x, _, _, _, _, g| {
        assert_eq!((a, l.is_none(), x.is_some(), g.is_none()), (8, true, true, true));
        (0, 5, b"one".to_vec())
    }, |p| assert_eq!(p, 5)), Ok(Some("one".to_owned())));
    assert_eq!(s.say_string(None, None, "1", "en", "T", "M", None, |_, _, _, _, _, _, _, _| (4, 5, vec![]), |_| panic!("not handed out")), Err(SwitchError(Status(4))));
    assert_eq!(s.generate_json_cdr(true, |_, u| { assert_eq!(u, SWITCH_TRUE); Created { status: 0, raw: 3 } }), Ok(3));
    assert_eq!(s.generate_xml_cdr(|_| Created { status: 2, raw: 3 }), Err(SwitchError(Status(2))));
    let mut n = 10;
    assert_eq!(speech_read_tts(1, 2, &mut n, 3, |a, b, c, d| { assert_eq!((a, b, c, d), (1, 2, 10, 3)); (0, 6) }), Ok(()));
    assert_eq!(n, 6);
    assert_eq!(speech_float_param_tts(1, "pitch", 1.5f64, |_, p, v| assert_eq!((p.to_bytes(), v), (b"pitch".to_vec(), 1.5))), Ok(()));
}
