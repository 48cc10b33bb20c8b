use fswtch::handle::Created;
use fswtch::resample::{
    calc_buffer_size, change_sln_volume, char_to_float, float_to_char, float_to_short, merge_sln,
    mux_channels, short_to_float, swap_linear, unmerge_sln, Agc, AgcConfig, Fed, Resample, Resampled,
    StreamingResample, DEFAULT_QUALITY, MIN_OUTPUT_ROOM,
};
use fswtch::status::{Status, SwitchError, GENERR};
use std::cell::{Cell, RefCell};

fn scale(to: u32, from: u32, len: u32) -> u32 {
    ((to as f64 / from as f64) * len as f64) as u32
}

fn lerp(cur: i16, next: i16, j: usize, n: usize) -> i16 {
    let inv_n = 1.0f32 / n as f32;
    let slope = next as f32 - cur as f32;
    (cur as f32 + slope * (j as f32 * inv_n)) as i16
}

fn streaming(from: u32, to: u32, quality: i32) -> Result<StreamingResample, String> {
    StreamingResample::new(from, to, quality, scale, |_, _, _, _, _| Created { status: 0, raw: 0x50 })
}

fn never(_: usize, _: &[i16], _: u32) -> Resampled {
    panic!("the core is not needed")
}

#[test]
fn streaming_rejects_zero_from_rate() {
    assert!(streaming(0, 16_000, 3).is_err());
}

#[test]
fn streaming_rejects_zero_to_rate() {
    assert!(streaming(8_000, 0, 3).is_err());
}

#[test]
fn streaming_rejects_quality_below_range() {
    assert!(streaming(8_000, 16_000, -1).is_err());
}

#[test]
fn streaming_rejects_quality_above_range() {
    assert!(streaming(8_000, 16_000, 11).is_err());
}

#[test]
fn calc_buffer_size_upsamples() {
    assert_eq!(calc_buffer_size(16_000, 8_000, 100, scale), 200);
}

#[test]
fn calc_buffer_size_zero_from_is_zero() {
    assert_eq!(calc_buffer_size(16_000, 0, 100, scale), 0);
}

#[test]
fn short_to_float_round_trips_length() {
    let input = [0i16, i16::MAX, i16::MIN, 1];
    let out: Vec<f32> = short_to_float(&input, |s: &[i16], n: i32| {
        assert_eq!(n, 4);
        s.iter().map(|&x| x as f32 / 32768.0).collect()
    });
    assert_eq!(out.len(), input.len());
    assert!(out[0] >= -1.0 && out[0] <= 1.0);
    assert!(out[0].abs() < 1e-6);
}

#[test]
fn empty_inputs_yield_empty_outputs() {
    assert!(short_to_float::<f32, _>(&[], |_, _| panic!("no call")).is_empty());
    assert!(float_to_short::<f32, _>(&[], |_, _| panic!("no call")).is_empty());
    assert!(char_to_float::<f32, _>(&[], |_, _| panic!("no call")).is_empty());
    assert!(float_to_char::<f32, _>(&[], |_, _| panic!("no call")).is_empty());
}

#[test]
fn agc_config_builder_chains() {
    let cfg = AgcConfig::default()
        .energy_avg(1000)
        .low_energy_point(50)
        .margin(200)
        .change_factor(3)
        .period_len(160);
    assert_eq!(cfg.energy_avg, 1000);
    assert_eq!(cfg.low_energy_point, 50);
    assert_eq!(cfg.margin, 200);
    assert_eq!(cfg.change_factor, 3);
    assert_eq!(cfg.period_len, 160);
}

#[test]
fn streaming_create_8k_to_16k() {
    let r = streaming(8_000, 16_000, 3).unwrap();
    assert_eq!(r.from_rate(), 8_000);
    assert_eq!(r.to_rate(), 16_000);
    assert!(r.is_integer_upsample());
}

#[test]
fn streaming_create_16k_to_8k_is_not_integer_upsample() {
    let r = streaming(16_000, 8_000, 3).unwrap();
    assert!(!r.is_integer_upsample());
}

#[test]
fn streaming_process_empty_returns_empty() {
    let mut r = streaming(8_000, 16_000, 3).unwrap();
    let mut out = Vec::new();
    r.process_into(&[], &mut out, lerp, never);
    assert!(out.is_empty());
}

#[test]
fn streaming_upsample_doubles_length() {
    let mut r = streaming(8_000, 16_000, 3).unwrap();
    let input: Vec<i16> = (0..160)
        .map(|i| {
            let t = i as f64 / 8_000.0;
            (10_000.0 * (2.0 * std::f64::consts::PI * 440.0 * t).sin()) as i16
        })
        .collect();
    let mut out = Vec::new();
    r.process_into(&input, &mut out, lerp, never);
    assert_eq!(out.len(), input.len() * 2);
}

#[test]
fn rejected_streams_say_why() {
    assert_eq!(streaming(0, 16_000, 3).unwrap_err(), "Invalid sample rates: from=0, to=16000");
    assert_eq!(streaming(4294967295, 0, 3).unwrap_err(), "Invalid sample rates: from=4294967295, to=0");
    assert_eq!(streaming(8_000, 16_000, -1).unwrap_err(), "Invalid quality -1: must be 0-10");
    assert_eq!(streaming(8_000, 16_000, i32::MIN).unwrap_err(), "Invalid quality -2147483648: must be 0-10");
    assert_eq!(streaming(8_000, 16_000, 11).unwrap_err(), "Invalid quality 11: must be 0-10");
    let e = StreamingResample::new(8_000, 16_000, 3, scale, |_, _, _, _, _| Created { status: 12, raw: 0 }).unwrap_err();
    assert_eq!(e, format!("switch_resample_perform_create failed: {:?}", SwitchError(Status(12))));
}

#[test]
fn interpolation_holds_the_tail_and_keeps_the_input() {
    let mut r = streaming(8_000, 24_000, 3).unwrap();
    let mut out = vec![9; 9];
    r.process_into(&[0, 300, -300], &mut out, lerp, never);
    assert_eq!(out, [0, 100, 200, 300, 100, -100, -300, -300, -300]);
    let asked = RefCell::new(Vec::new());
    let mut r = streaming(8_000, 32_000, 3).unwrap();
    r.process_into(&[5, 6], &mut out, |a, b, j, n| { asked.borrow_mut().push((a, b, j, n)); j as i16 }, never);
    assert_eq!(out, [5, 1, 2, 3, 6, 1, 2, 3]);
    assert_eq!(*asked.borrow(), vec![(5, 6, 1, 4), (5, 6, 2, 4), (5, 6, 3, 4), (6, 6, 1, 4), (6, 6, 2, 4), (6, 6, 3, 4)]);
}

#[test]
fn interpolated_lengths_do_not_depend_on_the_calls() {
    let input: Vec<i16> = (0..50).map(|i| i * 10).collect();
    let mut whole = Vec::new();
    streaming(8_000, 48_000, 3).unwrap().process_into(&input, &mut whole, lerp, never);
    let mut parts = Vec::new();
    for piece in input.chunks(7) {
        let mut out = Vec::new();
        streaming(8_000, 48_000, 3).unwrap().process_into(piece, &mut out, lerp, never);
        parts.extend(out);
    }
    assert_eq!(whole.len(), 300);
    assert_eq!(parts.len(), whole.len());
    let kept: Vec<i16> = whole.iter().copied().step_by(6).collect();
    assert_eq!(kept, input);
}

#[test]
fn interpolated_samples_stay_between_their_neighbours() {
    let input = [0i16, 32767, -32768, 5, 5, -1, 12000];
    let mut out = Vec::new();
    streaming(8_000, 56_000, 3).unwrap().process_into(&input, &mut out, lerp, never);
    for (i, &cur) in input.iter().enumerate() {
        let next = *input.get(i + 1).unwrap_or(&cur);
        for &s in &out[i * 7..i * 7 + 7] {
            assert!(cur.min(next) <= s && s <= cur.max(next), "{s} between {cur} and {next}");
        }
    }
    assert_eq!(out[42..], [12000; 7]);
}

#[test]
fn equal_rates_hand_samples_through() {
    let mut r = streaming(16_000, 16_000, 3).unwrap();
    assert!(!r.is_integer_upsample());
    let mut out = vec![1];
    r.process_into(&[4, 5], &mut out, |_, _, _, _| panic!("no interpolation"), never);
    assert_eq!(out, [4, 5]);
}

#[test]
fn other_ratios_go_to_the_core() {
    let mut r = streaming(16_000, 44_100, 3).unwrap();
    let mut out = Vec::new();
    r.process_into(&[4, 5], &mut out, |_, _, _, _| panic!("no interpolation"), |at, s, n| {
        assert_eq!((at, s, n), (0x50, &[4i16, 5][..], 2));
        Resampled { output: Some(vec![1, 2, 3]), source: vec![0, 0] }
    });
    assert_eq!(out, [1, 2, 3]);
    r.process_into(&[4, 5], &mut out, lerp, |_, _, _| Resampled { output: None, source: vec![] });
    assert!(out.is_empty());
}

#[test]
fn reset_replaces_the_resampler() {
    let mut r = streaming(16_000, 8_000, 7).unwrap();
    let destroyed = Cell::new(0);
    r.reset(scale, |from, to, room, quality, channels| {
        assert_eq!((from, to, room, quality, channels), (16_000, 8_000, MIN_OUTPUT_ROOM, 7, 1));
        Created { status: 0, raw: 0x60 }
    }, |a| destroyed.set(a), |_, _| panic!("nothing to log"));
    assert_eq!(destroyed.get(), 0x50);
    let logged = RefCell::new(Vec::new());
    r.reset(scale, |_, _, _, _, _| Created { status: 3, raw: 0 }, |_| panic!("the old one stays"), |level, line| {
        logged.borrow_mut().push((level, line.to_str().unwrap()));
    });
    assert_eq!(*logged.borrow(), vec![(4, "[fswtch:fswtch] StreamingResample::reset failed (SwitchError(Status(3))); keeping old handle".to_owned())]);
    let mut out = Vec::new();
    r.process_into(&[1], &mut out, lerp, |at, _, _| { assert_eq!(at, 0x60); Resampled { output: Some(vec![2]), source: vec![] } });
    assert_eq!(out, [2]);
    r.release(|a| destroyed.set(a));
    assert_eq!(destroyed.get(), 0x60);
    let mut r = streaming(8_000, 16_000, 7).unwrap();
    let (mut before, mut after) = (Vec::new(), Vec::new());
    r.process_into(&[3, 9, -4], &mut before, lerp, never);
    r.reset(scale, |_, _, _, _, _| panic!("nothing to reset"), |_| panic!("nothing to reset"), |_, _| panic!("nothing to log"));
    r.process_into(&[3, 9, -4], &mut after, lerp, never);
    assert_eq!((before, r.from_rate(), r.to_rate()), (after, 8_000, 16_000));
}

#[test]
fn resamplers_ask_for_room() {
    let r = Resample::new(8_000, 48_000, 2, 9, scale, |from, to, room, quality, channels| {
        assert_eq!((from, to, room, quality, channels), (8_000, 48_000, 49_152, 9, 2));
        Created { status: 0, raw: 1 }
    })
    .unwrap();
    assert_eq!((r.quality(), r.to_size(), r.as_ptr()), (9, 49_152, 1));
    assert_eq!((r.from_rate(|_| 8_000), r.to_rate(|_| 48_000), r.channels(|_| 2), r.to_capacity(|_| 7)), (8_000, 48_000, 2, 7));
    let r = Resample::with_default_quality(48_000, 8_000, 1, scale, |_, _, room, quality, _| {
        assert_eq!((room, quality), (MIN_OUTPUT_ROOM, DEFAULT_QUALITY));
        Created { status: 0, raw: 0 }
    });
    assert_eq!(r.unwrap_err(), SwitchError(Status(GENERR)));
    let r = Resample::new(0, 8_000, 1, 0, |_, _, _| panic!("no ratio"), |_, _, room, _, _| {
        assert_eq!(room, MIN_OUTPUT_ROOM);
        Created { status: 2, raw: 0 }
    });
    assert_eq!(r.unwrap_err(), SwitchError(Status(2)));
}

#[test]
fn gain_control_holds_its_tokens() {
    let mut agc = Agc::new(1, 2, 3, 4, 5, |c| {
        assert_eq!(c, AgcConfig { energy_avg: 1, low_energy_point: 2, margin: 3, change_factor: 4, period_len: 5 });
        Created { status: 0, raw: 6 }
    })
    .unwrap();
    assert_eq!(agc.set_token("t", |a, t| assert_eq!((a, t.to_bytes()), (6, b"t".to_vec()))), Ok(()));
    assert!(agc.set_token("\0", |_, _| panic!("no call")).is_err());
    let mut samples = [1i16, 2, 3];
    let r = agc.feed(&mut samples, 1, |a, s, n, c| {
        assert_eq!((a, s, n, c), (6, &[1i16, 2, 3][..], 3, 1));
        Fed { status: 5, samples: vec![10, 20] }
    });
    assert_eq!((r, samples), (Err(SwitchError(Status(5))), [10, 20, 3]));
    assert!(Agc::with_config(AgcConfig::default(), |_| Created { status: 1, raw: 0 }).is_err());
}

#[test]
fn samples_are_changed_in_place() {
    let mut data = [0x0102i16, 3];
    swap_linear(&mut data, |s, n| { assert_eq!(n, 2); s.iter().map(|x| x.swap_bytes()).collect() });
    assert_eq!(data, [0x0201, 0x0300]);
    change_sln_volume(&mut data, 2, |s, n, v| { assert_eq!((n, v), (2, 2)); vec![s[0] / 2] });
    assert_eq!(data, [0x0100, 0x0300]);
    let total = merge_sln(&mut data, &[1], 3, |s, n, o, m, c| {
        assert_eq!((n, o, m, c), (2, &[1i16][..], 1, 3));
        (9, vec![s[0] + o[0]])
    });
    assert_eq!((total, data), (9, [0x0101, 0x0300]));
    assert_eq!(unmerge_sln(&mut data, &[], u32::MAX, |_, _, _, _, c| { assert_eq!(c, i32::MAX); (1, vec![]) }), 1);
    mux_channels(&mut data, 1, 2, |_, n, a, b| { assert_eq!((n, a, b), (2, 1, 2)); vec![7, 7] });
    assert_eq!(data, [7, 7]);
    swap_linear(&mut [], |_, _| panic!("no call"));
    assert_eq!(merge_sln(&mut [], &[1], 1, |_, _, _, _, _| panic!("no call")), 0);
}
