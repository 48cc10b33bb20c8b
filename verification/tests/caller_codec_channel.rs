use fswtch::caller::{
    caller_extension_add_application, caller_extension_clone, caller_profile_event_set_data,
    CallerExtension, CallerProfile,
};
use fswtch::channel::{
    cause_to_str, collect_channel_variables, str_to_cause, Channel, Filled, HeaderNode,
    VariableSnapshot,
};
use fswtch::codec::{Codec, Coded};
use fswtch::endpoint::{Dtmf, DtmfFields};
use fswtch::handle::{Created, Handle};
use fswtch::pool::Pool;
use fswtch::session::Session;
use fswtch::status::{Cause, Status, SwitchError, GENERR, SWITCH_TRUE};
use std::cell::{Cell, RefCell};

fn generic() -> SwitchError {
    SwitchError(Status(GENERR))
}

fn node(name: Option<&[u8]>, value: Option<&[u8]>) -> HeaderNode {
    HeaderNode { name: name.map(|b| b.to_vec()), value: value.map(|b| b.to_vec()) }
}

#[test]
fn from_raw_null_is_none() {
    let got = CallerExtension::from_raw(0);
    assert!(got.is_none());
}

#[test]
fn as_ptr_round_trips_a_live_pointer() {
    let ext = vec![0u64];
    let raw = ext.as_ptr() as usize;
    let wrapped = CallerExtension::from_raw(raw).expect("non-null raw should wrap");
    assert_eq!(wrapped.as_ptr(), raw);
}

#[test]
fn getters_walk_a_populated_extension() {
    let wrapped = CallerExtension::from_raw(0x40).expect("non-null raw should wrap");
    assert_eq!(wrapped.name(|_| Some(b"default".to_vec())).as_deref(), Some("default"));
    assert_eq!(wrapped.number(|_| Some(b"1000".to_vec())).as_deref(), Some("1000"));
    let app = |at: usize| {
        assert_eq!(at, 0x40);
        0x80
    };
    assert_eq!(
        wrapped
            .current_application_name(app, |at| {
                assert_eq!(at, 0x80);
                Some(b"playback".to_vec())
            })
            .as_deref(),
        Some("playback")
    );
    assert_eq!(
        wrapped.current_application_data(app, |_| Some(b"ivr/welcome.wav".to_vec())).as_deref(),
        Some("ivr/welcome.wav")
    );
}

#[test]
fn current_application_getters_are_none_without_one() {
    let wrapped = CallerExtension::from_raw(0x40).expect("non-null raw should wrap");
    assert_eq!(wrapped.current_application_name(|_| 0, |_| panic!("no application")), None);
    assert_eq!(wrapped.current_application_data(|_| 0, |_| panic!("no application")), None);
}

#[test]
fn profile_fields_are_read_by_name() {
    let p = CallerProfile::from_raw(3).unwrap();
    assert_eq!(
        p.field("ani", |at, name| {
            assert_eq!((at, name.to_bytes()), (3, b"ani".to_vec()));
            Some(b"555".to_vec())
        }),
        Ok(Some("555".to_owned()))
    );
    assert_eq!(p.field("ani", |_, _| None), Ok(None));
    assert_eq!(p.field("a\0", |_, _| panic!("no call")), Err(generic()));
    let called = Cell::new(false);
    caller_profile_event_set_data(3, "Caller", 4, |a, b, c| {
        assert_eq!((a, b.to_bytes(), c), (3, b"Caller".to_vec(), 4));
        called.set(true);
    });
    assert!(called.get());
    caller_profile_event_set_data(3, "\0", 4, |_, _, _| panic!("no call"));
}

#[test]
fn extensions_are_cloned_and_extended() {
    let pool = Pool::from_raw(8).unwrap();
    let mut slot = 0;
    let r = caller_extension_clone(&mut slot, 5, &pool, |s, o, p| {
        assert_eq!((s, o, p), (0, 5, 8));
        Created { status: 0, raw: 77 }
    });
    assert_eq!((r, slot), (Ok(()), 77));
    let session = Session::from_raw(9).unwrap();
    let r = caller_extension_add_application(session, 77, "echo", "x", |s, e, n, d| {
        assert_eq!((s, e), (9, 77));
        assert_eq!((n.to_bytes(), d.to_bytes()), (b"echo".to_vec(), b"x".to_vec()));
        3
    });
    assert_eq!(r, Err(SwitchError(Status(3))));
}

#[test]
fn out_rate_is_unused_on_success_path() {
    let bytes = 160u32;
    assert_eq!(bytes as usize, 160);
    let pool = Pool::from_raw(8).unwrap();
    let raw = Handle::new(64).unwrap();
    let codec = Codec::new("PCMU", 8000, 20, 1, &pool, raw, |at, name, rate, ms, ch, p| {
        assert_eq!((at, name.to_bytes(), rate, ms, ch, p), (64, b"PCMU".to_vec(), 8000, 20, 1, 8));
        0
    })
    .unwrap();
    assert_eq!((codec.as_ptr(), codec.rate()), (64, 8000));
    let mut dst = [0xeeu8; 200];
    let n = codec.encode(&[1, 2, 3, 4], &mut dst, |at, src, rate, room| {
        assert_eq!((at, src, rate, room), (64, &[1u8, 2, 3, 4][..], 8000, 200));
        Coded { status: 0, out_len: bytes, bytes: vec![7; 160] }
    });
    assert_eq!(n, Ok(160));
    assert_eq!((dst[159], dst[160]), (7, 0xee));
}

#[test]
fn codec_failures_are_passed_on() {
    let pool = Pool::from_raw(8).unwrap();
    let raw = Handle::new(64).unwrap();
    assert_eq!(
        Codec::new("L16", 0, 0, 0, &pool, raw, |_, _, _, _, _, _| 4).unwrap_err(),
        SwitchError(Status(4))
    );
    assert_eq!(
        Codec::new("L\0", 0, 0, 0, &pool, raw, |_, _, _, _, _, _| panic!("no call")).unwrap_err(),
        generic()
    );
    let codec = Codec::new("L16", 16000, 0, 0, &pool, raw, |_, _, _, _, _, _| 0).unwrap();
    let mut dst = [0u8; 2];
    let r = codec.decode(&[9], &mut dst, |_, _, _, _| Coded { status: 1, out_len: 9, bytes: vec![5] });
    assert_eq!(r, Err(SwitchError(Status(1))));
    assert_eq!(dst, [5, 0]);
}

#[test]
fn variables_are_collected_in_order() {
    let destroyed = RefCell::new(Vec::new());
    let snapshot = VariableSnapshot {
        status: 0,
        event: 0x99,
        headers: vec![
            node(Some(b"a"), Some(b"1")),
            node(None, Some(b"lost")),
            node(Some(&[0xff]), Some(b"lost")),
            node(Some(b"b"), None),
            node(Some(b"c"), Some(&[0xff])),
        ],
    };
    let pairs = collect_channel_variables(snapshot, |e| destroyed.borrow_mut().push(e)).unwrap();
    let expected: Vec<(String, String)> =
        [("a", "1"), ("b", ""), ("c", "")].iter().map(|(n, v)| (n.to_string(), v.to_string())).collect();
    assert_eq!(pairs, expected);
    assert_eq!(*destroyed.borrow(), vec![0x99]);
}

#[test]
fn failed_snapshots_are_destroyed_too() {
    let channel = Channel::from_raw(0x10).unwrap();
    let destroyed = Cell::new(0);
    let r = channel.variables(
        |at| {
            assert_eq!(at, 0x10);
            VariableSnapshot { status: 5, event: 0x77, headers: vec![node(Some(b"a"), None)] }
        },
        |e| destroyed.set(e),
    );
    assert_eq!((r, destroyed.get()), (Err(SwitchError(Status(5))), 0x77));
    let r = channel.scope_variables(
        |_| VariableSnapshot { status: 0, event: 0, headers: vec![] },
        |_| panic!("nothing to destroy"),
    );
    assert_eq!(r, Err(SwitchError(Status(0))));
    let r = channel.variables_prefix(
        "pre",
        |at, p| {
            assert_eq!((at, p.to_bytes()), (0x10, b"pre".to_vec()));
            VariableSnapshot { status: 0, event: 1, headers: vec![] }
        },
        |_| {},
    );
    assert_eq!(r, Ok(vec![]));
    let r = channel.variables_prefix("\0", |_, _| panic!("no call"), |_| panic!("no call"));
    assert_eq!(r, Err(generic()));
}

#[test]
fn channel_variables_are_checked_and_handed_over() {
    let ch = Channel::from_raw(0x10).unwrap();
    let r = ch.export_variable("n", "v", Some("x"), |at, n, v, x, check| {
        assert_eq!((at, n.to_bytes(), v.to_bytes()), (0x10, b"n".to_vec(), b"v".to_vec()));
        assert_eq!((x.unwrap().to_bytes(), check), (b"x".to_vec(), SWITCH_TRUE));
        0
    });
    assert_eq!(r, Ok(()));
    let r = ch.export_variable("n", "v", None, |_, _, _, x, _| {
        assert!(x.is_none());
        2
    });
    assert_eq!(r, Err(SwitchError(Status(2))));
    assert_eq!(ch.export_variable("n", "v", Some("\0"), |_, _, _, _, _| panic!("no call")), Err(generic()));
    assert_eq!(ch.set_variable("n", "v\0", |_, _, _, _| panic!("no call")), Err(generic()));
    let mut freed = Vec::new();
    assert_eq!(ch.variable("n", |_, _| (7, b"val".to_vec()), |p| freed.push(p)), Ok(Some("val".to_owned())));
    assert_eq!(ch.variable("n", |_, _| (8, vec![0xff]), |p| freed.push(p)), Ok(None));
    assert_eq!(ch.variable("n", |_, _| (0, vec![]), |_| panic!("nothing to free")), Ok(None));
    assert_eq!(freed, [7, 8]);
    assert_eq!(
        ch.expand_variables("a ${b}", |_, t, n| (9, [t.to_bytes(), vec![b'0' + n as u8]].concat()), |_| {}),
        Ok(Some("a ${b}0".to_owned()))
    );
    assert_eq!(ch.variable_dup("n", true, |_, _, d, i| { assert_eq!((d, i), (SWITCH_TRUE, 0)); None }), Ok(None));
    assert_eq!(ch.del_variable_prefix("p", |_, _| 12), Ok(12));
    assert_eq!(ch.test_flag(4, |_, f| f), true);
    assert_eq!(ch.test_flag(4, |_, _| 0), false);
    assert_eq!(ch.get_private("k", |_, _| 0), Ok(None));
    assert_eq!(ch.get_private("k", |_, _| 33), Ok(Some(33)));
    assert_eq!(ch.cause(|_| 16), Cause(16));
    assert_eq!(ch.caller_profile(|_| 0).map(|p| p.as_ptr()), None);
    assert_eq!(ch.caller_profile(|_| 8).map(|p| p.as_ptr()), Some(8));
    assert_eq!(str_to_cause("normal_clearing", |_| 16), Ok(Cause(16)));
    assert_eq!(cause_to_str(Cause(16), |c| { assert_eq!(c, 16); Some(b"NORMAL_CLEARING".to_vec()) }).as_deref(), Some("NORMAL_CLEARING"));
}

#[test]
fn buffers_of_a_channel_are_filled() {
    let ch = Channel::from_raw(0x10).unwrap();
    let mut buf = *b"........";
    let r = ch.variable_buf("n", &mut buf, |_, _, room| {
        assert_eq!(room, 8);
        Filled { status: 0, bytes: b"abc\0".to_vec() }
    });
    assert_eq!((r, &buf), (Ok(3), b"abc\0...."));
    let r = ch.variable_buf("n", &mut buf, |_, _, _| Filled { status: 0, bytes: b"12345678".to_vec() });
    assert_eq!(r, Ok(8));
    let r = ch.variable_buf("n", &mut buf, |_, _, _| Filled { status: 9, bytes: vec![] });
    assert_eq!(r, Err(generic()));
    let mut buf = *b"....";
    assert_eq!(ch.partner_uuid_copy(&mut buf, |_, _| None), None);
    assert_eq!(&buf, b"....");
    assert_eq!(ch.partner_uuid_copy(&mut buf, |_, n| { assert_eq!(n, 4); Some(b"ab\0".to_vec()) }), Some(2));
    assert_eq!(&buf, b"ab\0.");
    assert_eq!(ch.dequeue_dtmf_string(&mut buf, |_, _| (2, b"1#\0".to_vec())), 2);
    assert_eq!(&buf, b"1#\0.");
}

#[test]
fn dtmf_is_dequeued() {
    let ch = Channel::from_raw(0x10).unwrap();
    let blank = DtmfFields { digit: 0, duration: 0, flags: 0, source: 0 };
    let mut dtmf = Dtmf(blank);
    let r = ch.dequeue_dtmf(&mut dtmf, |_, _| (0, DtmfFields { digit: b'5' as i8, duration: 800, flags: 0, source: 2 }));
    assert_eq!((r, dtmf.digit(), dtmf.duration()), (Ok(()), '5', 800));
    let r = ch.dequeue_dtmf(&mut dtmf, |_, d| (1, d));
    assert_eq!((r, dtmf.digit()), (Err(SwitchError(Status(1))), '5'));
    assert_eq!(ch.log_tags(|_| Created { status: 0, raw: 4 }), Some(4));
    assert_eq!(ch.log_tags(|_| Created { status: 1, raw: 4 }), None);
    assert_eq!(ch.log_tags(|_| Created { status: 0, raw: 0 }), None);
    let profile = CallerProfile::from_raw(6).unwrap();
    assert_eq!(
        ch.build_param_string(Some(&profile), "v_", |_, p, x| {
            assert_eq!((p, x.to_bytes()), (6, b"v_".to_vec()));
            Some(b"a=b".to_vec())
        }),
        Ok(Some("a=b".to_owned()))
    );
    assert_eq!(ch.build_param_string(None, "", |_, p, _| { assert_eq!(p, 0); None }), Ok(None));
}

#[test]
fn codecs_are_destroyed_before_their_storage() {
    let pool = Pool::from_raw(9).unwrap();
    let order = RefCell::new(Vec::new());
    for status in [0, 5] {
        let raw = Handle::new(64).unwrap();
        let codec = Codec::new("L16", 16000, 0, 0, &pool, raw, |_, _, _, _, _, _| 0).unwrap();
        codec.release(
            |a| {
                order.borrow_mut().push(("destroy", a as u32));
                status
            },
            |a| order.borrow_mut().push(("free", a as u32)),
            |e| order.borrow_mut().push(("log", e.0 .0)),
        );
    }
    assert_eq!(order.into_inner(), [("destroy", 64), ("free", 64), ("destroy", 64), ("log", 5), ("free", 64)]);
}
