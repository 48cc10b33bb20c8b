use fswtch::estimators::{is_slow_link, is_true, CusumDetector, KalmanEstimator};
use fswtch::handle::{Created, Handle};
use fswtch::jitterbuffer::{
    JbFlag, JbFrames, JbKind, JitterBuffer, JitterBufferConfig, SJB_AUDIO, SJB_QUEUE_ONLY, SJB_TEXT,
    SJB_VIDEO,
};
use fswtch::nat_mapping::{add_mapping, del_mapping, is_initialized, type_str, NatIpProto};
use fswtch::network_list::NetworkList;
use fswtch::packetizer::{BitstreamType, Packetizer};
use fswtch::plc::{Concealed, Plc};
use fswtch::pool::Pool;
use fswtch::status::{Status, SwitchError, GENERR, SWITCH_FALSE, SWITCH_TRUE};
use std::cell::{Cell, RefCell};

fn generic() -> SwitchError {
    SwitchError(Status(GENERR))
}

#[test]
fn bool_constant_mapping_is_correct() {
    assert!(is_true(SWITCH_TRUE));
    assert!(!is_true(SWITCH_FALSE));
}

#[test]
fn estimators_pass_numbers_through() {
    assert!(!is_true(2));
    let raw = Handle::new(5).unwrap();
    let mut k = KalmanEstimator::new(raw, 0.5f32, 2.0f32, |a, q, r| assert_eq!((a, q, r), (5, 0.5, 2.0))).unwrap();
    assert!(k.estimate(1.5f32, 1, |a, m, s| { assert_eq!((a, m, s), (5, 1.5, 1)); SWITCH_TRUE }));
    assert!(!k.estimate(1.5f32, 1, |_, _, _| SWITCH_FALSE));
    assert_eq!((k.q(|_| 0.5f32), k.r(|_| 2.0f32), k.estimate_value(|_| 1.0f32), k.measured_value(|_| 1.5f32)), (0.5, 2.0, 1.0, 1.5));
    assert!(is_slow_link(&k, &k, |a, b| { assert_eq!((a, b), (5, 5)); SWITCH_TRUE }));
    let mut d = CusumDetector::new(raw, 0.1f32, 9.0f32, |_, _, _| SWITCH_TRUE).unwrap();
    assert!(d.detect_change(3.0f32, 4.0f32, |a, m, r| { assert_eq!((a, m, r), (5, 3.0, 4.0)); SWITCH_TRUE }));
    assert_eq!((d.epsilon(|_| 0.1f32), d.h(|_| 9.0f32), d.as_ptr()), (0.1, 9.0, 5));
    assert_eq!(CusumDetector::new(raw, 0.1f32, 9.0f32, |_, _, _| SWITCH_FALSE).unwrap_err(), generic());
}

#[test]
fn config_defaults_are_audio_20_120() {
    let cfg = JitterBufferConfig::new(JbKind::Audio);
    assert_eq!(cfg.min_frame_len, 20);
    assert_eq!(cfg.max_frame_len, 120);
}

#[test]
fn config_overrides_apply() {
    let cfg = JitterBufferConfig::new(JbKind::Video).min_frame_len(10).max_frame_len(60);
    assert_eq!(cfg.min_frame_len, 10);
    assert_eq!(cfg.max_frame_len, 60);
    assert_eq!(cfg.kind, JbKind::Video);
}

#[test]
fn kind_maps_to_raw() {
    assert_eq!(JbKind::Video.as_raw(), SJB_VIDEO);
    assert_eq!(JbKind::Audio.as_raw(), SJB_AUDIO);
    assert_eq!(JbKind::Text.as_raw(), SJB_TEXT);
}

#[test]
fn flag_maps_to_raw() {
    assert_eq!(JbFlag::QueueOnly.as_raw(), SJB_QUEUE_ONLY);
}

fn jitter_buffer() -> JitterBuffer {
    JitterBuffer::new(JitterBufferConfig::new(JbKind::Text), || Created { status: 0, raw: 3 }, |k, lo, hi, p| {
        assert_eq!((k, lo, hi, p), (SJB_TEXT, 20, 120, 3));
        Created { status: 0, raw: 4 }
    }, |_| panic!("the pool is in use"))
    .unwrap()
}

#[test]
fn a_refused_jitter_buffer_gives_its_pool_back() {
    let config = JitterBufferConfig::new(JbKind::Audio);
    let destroyed = Cell::new(0);
    let r = JitterBuffer::new(config, || Created { status: 2, raw: 0 }, |_, _, _, _| panic!("no pool"), |_| panic!("no pool"));
    assert_eq!(r.unwrap_err(), SwitchError(Status(2)));
    let r = JitterBuffer::new(config, || Created { status: 0, raw: 3 }, |_, _, _, _| Created { status: 6, raw: 0 }, |p| destroyed.set(p));
    assert_eq!((r.unwrap_err(), destroyed.get()), (SwitchError(Status(6)), 3));
    let r = JitterBuffer::new(config, || Created { status: 0, raw: 3 }, |_, _, _, _| Created { status: 0, raw: 0 }, |_| {});
    assert_eq!(r.unwrap_err(), generic());
    let order = RefCell::new(Vec::new());
    jitter_buffer().release(|b| order.borrow_mut().push(("buffer", b)), |p| order.borrow_mut().push(("pool", p)));
    assert_eq!(*order.borrow(), vec![("buffer", 4), ("pool", 3)]);
}

#[test]
fn packets_may_be_missing() {
    let jb = jitter_buffer();
    let mut len = 1500;
    assert_eq!(jb.get_packet(9, &mut len, |b, p, n| { assert_eq!((b, p, n), (4, 9, 1500)); (0, 172) }), Ok(true));
    assert_eq!(len, 172);
    assert_eq!(jb.get_packet(9, &mut len, |_, _, n| (1, n)), Ok(false));
    assert_eq!(jb.get_packet(9, &mut len, |_, _, n| (5, n)), Err(SwitchError(Status(5))));
    assert_eq!(jb.get_packet_by_seq(77, 9, &mut len, |_, s, _, _| { assert_eq!(s, 77); (0, 4) }), Ok(true));
    assert_eq!(jb.peek_frame(1, 2, 3, 4, |_, t, s, p, f| { assert_eq!((t, s, p, f), (1, 2, 3, 4)); 1 }), Ok(false));
    let frames = JbFrames { min_frame_len: 1, max_frame_len: 2, cur_frame_len: 3, highest_frame_len: 4 };
    assert_eq!(jb.frames(|_| (0, frames)), Ok(frames));
    assert_eq!(jb.frames(|_| (3, frames)), Err(SwitchError(Status(3))));
    assert_eq!(jb.put_packet(9, 100, |_, p, n| { assert_eq!((p, n), (9, 100)); 0 }), Ok(()));
    let flag = Cell::new(0);
    jb.set_flag(JbFlag::QueueOnly, |_, f| flag.set(f));
    assert_eq!((flag.get(), jb.poll(|_| 2), jb.frame_count(|_| 3)), (SJB_QUEUE_ONLY, 2, 3));
}

#[test]
fn mappings_report_the_port_only_when_asked() {
    let r = add_mapping(5060, NatIpProto::Tcp, Some(7000), true, |p, proto, ext, sticky| {
        assert_eq!((p, proto, ext, sticky), (5060, 1, Some(7000), SWITCH_TRUE));
        (0, 7001)
    });
    assert_eq!(r, Ok(Some(7001)));
    let r = add_mapping(5060, NatIpProto::Udp, None, false, |p, proto, ext, sticky| {
        assert_eq!((p, proto, ext, sticky), (5060, 0, None, SWITCH_FALSE));
        (0, 9)
    });
    assert_eq!(r, Ok(None));
    assert_eq!(add_mapping(1, NatIpProto::Udp, Some(1), false, |_, _, _, _| (4, 1)), Err(SwitchError(Status(4))));
    assert_eq!(del_mapping(1, NatIpProto::Udp, |p, k| { assert_eq!((p, k), (1, 0)); 0 }), Ok(()));
    assert_eq!(type_str(|| Some(b"upnp".to_vec())).as_deref(), Some("upnp"));
    assert_eq!(type_str(|| Some(vec![b'a', 0xff, b'b'])).as_deref(), Some("a\u{fffd}b"));
    assert_eq!(type_str(|| None), None);
    assert!(is_initialized(|| 1));
    assert!(!is_initialized(|| 0));
}

#[test]
fn lists_judge_addresses() {
    let pool = Pool::from_raw(2).unwrap();
    let list = NetworkList::new("lan", false, &pool, |n, d, p| {
        assert_eq!((n.to_bytes(), d, p), (b"lan".to_vec(), SWITCH_FALSE, 2));
        Created { status: 0, raw: 5 }
    })
    .unwrap();
    assert_eq!(list.add_cidr("10.0.0.0/8", true, Some("office"), |l, c, a, t| {
        assert_eq!((l, c.to_bytes(), a, t.unwrap().to_bytes()), (5, b"10.0.0.0/8".to_vec(), SWITCH_TRUE, b"office".to_vec()));
        0
    }), Ok(()));
    assert_eq!(list.add_cidr("10.0.0.0/8", true, Some("\0"), |_, _, _, _| panic!("no call")), Err(generic()));
    assert_eq!(list.add_host("10.0.0.1", "255.0.0.0", false, |_, _, _, _| 8), Err(SwitchError(Status(8))));
    let v = list.validate_ipv4([10, 1, 2, 255], |l, ip| {
        assert_eq!((l, ip), (5, 0x0a0102ff));
        (SWITCH_TRUE, Some(b"office\0junk".to_vec()))
    });
    assert_eq!((v.allowed(), v.token().unwrap().to_bytes()), (true, b"office".to_vec()));
    let v = list.validate_ipv4([255, 255, 255, 255], |_, ip| { assert_eq!(ip, u32::MAX); (SWITCH_FALSE, None) });
    assert_eq!((v.allowed(), v.token().is_none()), (false, true));
    assert_eq!(NetworkList::new("l\0", true, &pool, |_, _, _| panic!("no call")).unwrap_err(), generic());
}

#[test]
fn bitstream_type_consts_are_distinct_and_named() {
    let of = BitstreamType::from_raw;
    assert_ne!(BitstreamType::H264, BitstreamType::VP8);
    assert_ne!(BitstreamType::H264, BitstreamType::H264_SIZED);
    assert_ne!(BitstreamType::H264, BitstreamType::H264_SINGLE_NALU);
    assert_ne!(BitstreamType::VP8, BitstreamType::VP9);
    assert!(of(BitstreamType::INVALID).is_invalid());
    assert!(of(BitstreamType::H264).is_h264());
    assert!(of(BitstreamType::H264_SIZED).is_h264());
    assert!(of(BitstreamType::H264_SINGLE_NALU).is_h264());
    assert!(of(BitstreamType::VP8).is_vp());
    assert!(of(BitstreamType::VP9).is_vp());
    assert!(!of(BitstreamType::H264).is_vp());
    assert!(!of(BitstreamType::VP8).is_h264());
}

#[test]
fn bitstream_type_round_trips() {
    for raw in [BitstreamType::H264, BitstreamType::VP8, BitstreamType::INVALID] {
        assert_eq!(BitstreamType::from_raw(raw).as_u32(), raw);
    }
}

#[test]
fn bitstream_type_display_covers_known_values() {
    assert_eq!(BitstreamType(BitstreamType::H264).to_string(), "H264");
    assert_eq!(BitstreamType(BitstreamType::VP8).to_string(), "VP8");
    assert_eq!(BitstreamType(BitstreamType::INVALID).to_string(), "INVALID");
    assert_eq!(BitstreamType(99).to_string(), "UNKNOWN");
    let names: Vec<&str> = (0..6).map(|i| BitstreamType(i).name()).collect();
    assert_eq!(names, ["H264", "H264_SIZED", "H264_SINGLE_NALU", "VP8", "VP9", "INVALID"]);
}

#[test]
fn packetizers_feed_and_read() {
    assert_eq!(Packetizer::new(BitstreamType(BitstreamType::INVALID), 1200, |_, _| panic!("no call")).unwrap_err(), generic());
    assert_eq!(Packetizer::new(BitstreamType(BitstreamType::VP8), 1200, |_, _| 0).unwrap_err(), generic());
    let p = Packetizer::new(BitstreamType(BitstreamType::VP8), 1200, |k, n| { assert_eq!((k, n), (3, 1200)); 6 }).unwrap();
    assert_eq!(p.feed(&[], |_, _, _| panic!("no call")), Ok(()));
    assert_eq!(p.feed(&[1, 2], |a, d, n| { assert_eq!((a, d, n), (6, &[1u8, 2][..], 2)); 0 }), Ok(()));
    assert_eq!(p.feed_extradata(&[3], |_, _, n| { assert_eq!(n, 1); 4 }), Err(SwitchError(Status(4))));
    assert_eq!(p.feed_extradata(&[], |_, _, _| panic!("no call")), Ok(()));
    assert_eq!(p.read(9, |a, f| { assert_eq!((a, f), (6, 9)); 0 }), Ok(true));
    assert_eq!(p.read(9, |_, _| 1), Ok(false));
    assert_eq!(p.read(9, |_, _| 2), Err(SwitchError(Status(2))));
    assert_eq!(Packetizer::from_raw(6).unwrap().as_ptr(), 6);
}

#[test]
fn empty_slices_short_circuit_without_ffi() {
    let plc = Plc::from_raw(8).unwrap();
    assert_eq!(plc.rx(&mut [], |_, _, _| panic!("no call")), 0);
    assert_eq!(plc.fillin(&mut [], |_, _, _| panic!("no call")), 0);
}

#[test]
fn concealment_changes_the_frame() {
    let plc = Plc::new(|| 8).unwrap();
    assert_eq!(Plc::new(|| 0).unwrap_err(), generic());
    let mut frame = [1i16, 2, 3];
    assert_eq!(plc.rx(&mut frame, |a, s, n| {
        assert_eq!((a, s, n), (8, &[1i16, 2, 3][..], 3));
        Concealed { count: 3, samples: vec![9] }
    }), 3);
    assert_eq!(frame, [9, 2, 3]);
    let logged = Cell::new(0);
    Plc::new(|| 7).unwrap().release(|a| { assert_eq!(a, 7); -3 }, |code| logged.set(code));
    Plc::new(|| 7).unwrap().release(|_| 0, |_| panic!("freed in order"));
    assert_eq!(logged.get(), -3);
    assert_eq!(plc.fillin(&mut frame, |_, _, n| Concealed { count: n, samples: vec![4, 5, 6] }), 3);
    assert_eq!(frame, [4, 5, 6]);
}

#[test]
fn pool_creates_and_drops() {
    let pool = Pool::new(|| Created { status: 0, raw: 11 }).expect("new memory pool");
    assert_eq!(pool.as_ptr(), 11);
    drop(pool);
    assert_eq!(Pool::new(|| Created { status: 6, raw: 0 }).unwrap_err(), SwitchError(Status(6)));
}

#[test]
fn strdup_returns_pool_storage() {
    let pool = Pool::new(|| Created { status: 0, raw: 11 }).expect("new memory pool");
    let s = pool.strdup("hello pool", |_, t| Some(t.as_bytes_with_nul().to_vec())).expect("strdup");
    assert_eq!(s.to_bytes(), b"hello pool");
}

#[test]
fn strdup_rejects_interior_nul() {
    let pool = Pool::new(|| Created { status: 0, raw: 11 }).expect("new memory pool");
    assert!(pool.strdup("a\0b", |_, _| panic!("no call")).is_err());
    assert_eq!(pool.strdup("ab", |_, _| None).unwrap_err(), generic());
}

#[test]
fn alloc_returns_non_null_zeroed() {
    let pool = Pool::new(|| Created { status: 0, raw: 11 }).expect("new memory pool");
    let storage = vec![0u8; 128];
    let at = storage.as_ptr() as usize;
    let mem = pool.allocate(128, |p, n| { assert_eq!((p, n), (11, 128)); at }).expect("alloc");
    assert!(mem != 0);
    assert_eq!(mem, at);
    assert!(storage.iter().all(|b| *b == 0));
    assert_eq!(pool.allocate(128, |_, _| 0), Err(generic()));
}
