use fswtch::dsp::{rms, Agc, DenoiseStage, SampleRateConverter, FRAME_SIZE, PIPELINE_SAMPLE_RATE, TELEPHONY_SAMPLE_RATE};
use nnnoiseless::DenoiseState;
use rubato::audioadapter_buffers::owned::InterleavedOwned;
use rubato::{Async, FixedAsync, Resampler, SincInterpolationParameters, SincInterpolationType, WindowFunction};
use std::cell::{Cell, RefCell};
use wide::f32x8;

const ATTACK_COEF: f32 = 0.02;
const RELEASE_COEF: f32 = 0.25;
const EPS: f32 = 1e-6;
const SILENCE_HOLD_RMS: f32 = 30.0;

fn level_of(samples: &[i16]) -> f32 {
    rms(
        samples,
        0.0f32,
        f32x8::splat(0.0),
        |acc: f32x8, c: &[i16]| {
            let v = f32x8::from([
                c[0] as f32, c[1] as f32, c[2] as f32, c[3] as f32, c[4] as f32, c[5] as f32, c[6] as f32, c[7] as f32,
            ]);
            acc + v * v
        },
        |acc: f32x8| acc.to_array().iter().sum::<f32>(),
        |sum: f32, s: i16| sum + (s as f32) * (s as f32),
        |sum: f32, n: usize| (sum / n as f32).sqrt(),
    )
}

fn agc(target: f32, max_gain_db: f32) -> Agc<f32> {
    Agc::new(target.max(EPS), 10f32.powf(max_gain_db / 20.0), 1.0)
}

fn apply(agc: &mut Agc<f32>, pcm: &mut [i16]) {
    agc.process(
        pcm,
        |p: &[i16]| {
            let sum: f64 = p.iter().map(|&s| (s as i64 * s as i64) as f64).sum();
            (sum / p.len() as f64).sqrt() as f32
        },
        |level: f32| level < SILENCE_HOLD_RMS,
        |target: f32, level: f32, max: f32| (target / (level + EPS)).clamp(0.0, max),
        |desired: f32, gain: f32| desired > gain,
        |gain: f32, desired: f32| gain + (desired - gain) * ATTACK_COEF,
        |gain: f32, desired: f32| gain + (desired - gain) * RELEASE_COEF,
        |s: i16, gain: f32| ((s as f32) * gain).round().clamp(-32768.0, 32767.0) as i16,
    )
}

#[test]
fn unity_on_silence() {
    let mut agc = agc(3000.0, 20.0);
    let mut pcm = vec![0i16; 160];
    apply(&mut agc, &mut pcm);
    assert!(pcm.iter().all(|&s| s == 0));
}

#[test]
fn lifts_quiet_speech() {
    let mut agc = agc(3000.0, 20.0);
    let mut max_gain_seen = 0.0f32;
    let mut last_rms = 0.0f64;
    for _ in 0..400 {
        let mut pcm = vec![100i16; 160];
        apply(&mut agc, &mut pcm);
        max_gain_seen = max_gain_seen.max(agc.gain());
        last_rms = (pcm.iter().map(|s| (*s as f64).powi(2)).sum::<f64>() / 160.0).sqrt();
    }
    assert!(last_rms > 500.0, "last rms {last_rms} not lifted");
    assert!((max_gain_seen - 10.0).abs() < 0.5, "gain {max_gain_seen} not capped");
}

#[test]
fn attenuates_loud_fast() {
    let mut agc = agc(3000.0, 20.0);
    let mut pcm = vec![20000i16; 160];
    apply(&mut agc, &mut pcm);
    assert!(agc.gain() < 1.0, "gain {} not pulled down", agc.gain());
}

#[test]
fn silence_hold_prevents_speech_onset_clipping() {
    let mut agc = agc(3000.0, 20.0);
    for _ in 0..100 {
        let mut silence = vec![0i16; 160];
        apply(&mut agc, &mut silence);
    }
    assert!(agc.gain() < 1.1, "gain crept to {} during silence", agc.gain());
    let mut speech = vec![5000i16; 160];
    apply(&mut agc, &mut speech);
    let saturated = speech.iter().filter(|&&s| s.abs() >= 32767).count();
    assert_eq!(saturated, 0, "{} samples saturated", saturated);
}

#[test]
fn gain_is_held_while_it_is_quiet() {
    let mut agc = Agc::new(3000i64, 10, 2);
    let mut pcm = vec![1i16, -2, 3];
    agc.process(
        &mut pcm,
        |p: &[i16]| p.iter().map(|&s| s as i64).sum::<i64>(),
        |_| true,
        |_, _, _| panic!("no gain is asked for"),
        |_, _| panic!("no direction is asked for"),
        |_, _| panic!("no attack"),
        |_, _| panic!("no release"),
        |s: i16, g: i64| s * g as i16,
    );
    assert_eq!((pcm, agc.gain()), (vec![2, -4, 6], 2));
    agc.process(
        &mut [],
        |_| panic!("nothing to measure"),
        |_| true,
        |_, _, _| 0,
        |_, _| true,
        |g, _| g,
        |g, _| g,
        |s, _| s,
    );
    agc.reset(1);
    assert_eq!((agc.gain(), agc.target_rms, agc.max_gain), (1, 3000, 10));
}

fn denoise(stage: &mut DenoiseStage<f32>, state: &mut DenoiseState<'static>, input: &[f32], out: &mut Vec<f32>) {
    stage.process(input, out, state, |d, frame| {
        let mut cleaned = vec![0.0f32; FRAME_SIZE];
        d.process_frame(&mut cleaned, frame);
        (d, cleaned)
    });
}

#[test]
fn disabled_passes_through() {
    let mut stage = DenoiseStage::new(false);
    let mut state = DenoiseState::new();
    let input = vec![0.5; 480];
    let mut out = Vec::new();
    denoise(&mut stage, &mut state, &input, &mut out);
    assert_eq!(out, input);
}

#[test]
fn enabled_produces_output_eventually() {
    let mut stage = DenoiseStage::new(true);
    let mut state = DenoiseState::new();
    let mut total_out = 0;
    for _ in 0..9 {
        let input = vec![0.3; 160];
        let mut out = Vec::new();
        denoise(&mut stage, &mut state, &input, &mut out);
        total_out += out.len();
    }
    assert!(total_out >= 2 * FRAME_SIZE, "got {total_out} samples");
    assert_eq!(total_out, 3 * FRAME_SIZE);
}

#[test]
fn reset_clears_buffers() {
    let mut stage = DenoiseStage::new(true);
    let mut state = DenoiseState::new();
    let input = vec![0.5; 480];
    let mut out = Vec::new();
    denoise(&mut stage, &mut state, &input, &mut out);
    assert!(!out.is_empty());
    stage.reset(|| state = DenoiseState::new());
    let mut out2 = Vec::new();
    denoise(&mut stage, &mut state, &[0.0; 160], &mut out2);
    assert!(out2.len() <= 160);
}

#[test]
fn out_is_cleared_between_calls() {
    let mut stage = DenoiseStage::new(false);
    let mut state = DenoiseState::new();
    let mut out = Vec::new();
    denoise(&mut stage, &mut state, &[0.5; 480], &mut out);
    assert_eq!(out.len(), 480);
    denoise(&mut stage, &mut state, &[0.5; 480], &mut out);
    assert_eq!(out.len(), 480, "out was not cleared between calls");
}

#[test]
fn frames_do_not_depend_on_the_calls() {
    assert_eq!(FRAME_SIZE, nnnoiseless::FRAME_SIZE);
    let samples: Vec<i32> = (0..1500).collect();
    let run = |sizes: &[usize]| {
        let mut stage = DenoiseStage::new(true);
        let mut seen = Vec::new();
        let mut all = Vec::new();
        let mut at = 0;
        for &n in sizes {
            let mut out = vec![-1];
            seen = stage.process(&samples[at..at + n], &mut out, seen, |mut seen, f| {
                seen.push(f.to_vec());
                (seen, f.iter().map(|s| -s).collect())
            });
            all.extend(out);
            at += n;
        }
        (seen, all)
    };
    let (frames, out) = run(&[1500]);
    assert_eq!(frames.len(), 3);
    assert_eq!(frames.concat(), samples[..1440]);
    assert_eq!(out, samples[..1440].iter().map(|s| -s).collect::<Vec<_>>());
    assert_eq!(run(&[7, 480, 0, 473, 540]), (frames, out));
}

#[test]
fn an_off_stage_has_nothing_to_reset() {
    let mut stage = DenoiseStage::<i16>::new(false);
    stage.reset(|| panic!("nothing to renew"));
    assert!(!stage.is_enabled());
    let renewed = Cell::new(false);
    let mut stage = DenoiseStage::new(true);
    let mut out = Vec::new();
    stage.process(&[1i16; 479], &mut out, (), |d, f| (d, f.to_vec()));
    stage.reset(|| renewed.set(true));
    stage.process(&[2i16; 1], &mut out, (), |d, f| (d, f.to_vec()));
    assert!(renewed.get() && stage.is_enabled() && out.is_empty());
}

#[test]
fn rms_empty() {
    assert_eq!(level_of(&[]), 0.0);
}

#[test]
fn rms_silence() {
    let silence = vec![0i16; 512];
    assert!(level_of(&silence) < 0.001);
}

#[test]
fn rms_constant() {
    let constant = vec![1000i16; 512];
    let result = level_of(&constant);
    assert!((result - 1000.0).abs() < 0.1);
}

#[test]
fn rms_simd_vs_scalar() {
    let samples: Vec<i16> = (0..512).map(|i| (i as i16) * 50).collect();
    let simd_result = level_of(&samples);
    let sum: f32 = samples.iter().map(|&s| (s as f32) * (s as f32)).sum();
    let scalar_result = (sum / samples.len() as f32).sqrt();
    assert!((simd_result - scalar_result).abs() < 0.01);
}

#[test]
fn rms_small_fallback() {
    let small = vec![1000i16, 2000, 3000, 4000];
    let result = level_of(&small);
    let expected: f32 =
        ((1000.0f32 * 1000.0 + 2000.0 * 2000.0 + 3000.0 * 3000.0 + 4000.0 * 4000.0) / 4.0).sqrt();
    assert!((result - expected).abs() < 0.1);
}

#[test]
fn rms_takes_every_sample_once() {
    for n in [0usize, 1, 7, 8, 9, 15, 16, 23] {
        let samples: Vec<i16> = (1..=n as i16).collect();
        let wide = RefCell::new(Vec::new());
        let total = rms(
            &samples,
            0i64,
            0i64,
            |acc, c: &[i16]| {
                wide.borrow_mut().push(c.len());
                acc + c.iter().map(|&s| s as i64 * s as i64).sum::<i64>()
            },
            |acc| acc,
            |sum, s| sum + s as i64 * s as i64,
            |sum, len| {
                assert_eq!(len, n);
                sum
            },
        );
        let expected: i64 = samples.iter().map(|&s| s as i64 * s as i64).sum();
        assert_eq!(total, expected);
        assert_eq!(*wide.borrow(), vec![8; n / 8]);
    }
}

struct Converter {
    stage: SampleRateConverter<f32>,
    inner: Async<f32>,
}

fn converter(src_rate: u32, dst_rate: u32, chunk_size: usize) -> Converter {
    let params = SincInterpolationParameters {
        sinc_len: 128,
        f_cutoff: rubato::calculate_cutoff(128, WindowFunction::Blackman2),
        interpolation: SincInterpolationType::Quadratic,
        oversampling_factor: 256,
        window: WindowFunction::Blackman2,
    };
    let inner = Async::<f32>::new_sinc(dst_rate as f64 / src_rate as f64, 2.0, &params, chunk_size, 1, FixedAsync::Input).unwrap();
    assert_eq!(inner.input_frames_next(), chunk_size);
    let stage = SampleRateConverter::new(src_rate, dst_rate, chunk_size, |_, _, _| Ok(())).unwrap();
    Converter { stage, inner }
}

fn run_chunk<'a>(inner: &'a mut Async<f32>, chunk: &[f32]) -> (&'a mut Async<f32>, Option<Vec<f32>>) {
    let out = match InterleavedOwned::new_from(chunk.to_vec(), 1, chunk.len()) {
        Ok(input) => inner.process(&input, 0, None).ok().map(|r| r.take_data()),
        Err(_) => None,
    };
    (inner, out)
}

fn to_pcm(s: f32) -> i16 {
    (s * 32767.0).round().clamp(i16::MIN as f32, i16::MAX as f32) as i16
}

impl Converter {
    fn process(&mut self, input: &[i16]) -> Vec<i16> {
        self.stage.process(input, |s| s as f32 / 32768.0, &mut self.inner, |d, c| run_chunk(d, c), to_pcm).0
    }

    fn flush(&mut self) -> Vec<i16> {
        self.stage.flush(0.0, &mut self.inner, |d, c| run_chunk(d, c), to_pcm).0
    }
}

#[test]
fn flush_produces_tail_samples_without_truncation() {
    let mut src = converter(8000, 16000, 160);
    for _ in 0..5 {
        let input: Vec<i16> = (0..137).map(|i| ((i as f32 * 0.1).sin() * 10000.0) as i16).collect();
        let _main_output = src.process(&input);
    }
    let tail = src.flush();
    assert!(!tail.is_empty(), "flush must produce tail samples");
    let has_nonzero = tail.iter().any(|&s| s != 0);
    assert!(has_nonzero, "flush tail must contain non-zero samples");
}

#[test]
fn flush_is_idempotent_after_drain() {
    let mut src = converter(8000, 16000, 160);
    let input = vec![5000i16; 160];
    let _ = src.process(&input);
    let _ = src.flush();
    let second_flush = src.flush();
    assert!(second_flush.is_empty(), "second flush must be empty, got {} samples", second_flush.len());
}

#[test]
fn flush_empty_input_returns_empty() {
    let mut src = converter(16000, 16000, 512);
    let tail = src.flush();
    assert!(tail.is_empty(), "flush with no input must return empty");
}

#[test]
fn process_then_flush_preserves_total_energy() {
    let mut src = converter(8000, 16000, 160);
    let input: Vec<i16> = (0..320).map(|i| ((i as f32 * 0.2).sin() * 15000.0) as i16).collect();
    let main_output = src.process(&input);
    let tail_output = src.flush();
    let total_output = main_output.len() + tail_output.len();
    assert!(total_output > input.len(), "output {} input {}", total_output, input.len());
    let mut combined = main_output;
    combined.extend(tail_output);
    let input_rms = level_of(&input);
    let output_rms = level_of(&combined);
    let ratio = output_rms / input_rms;
    assert!(ratio > 0.5 && ratio < 1.5, "output {output_rms:.1} input {input_rms:.1} ratio {ratio:.2}");
}

fn ends_of(mut seen: Vec<Vec<i32>>, chunk: &[i32]) -> (Vec<Vec<i32>>, Option<Vec<i32>>) {
    seen.push(chunk.to_vec());
    (seen, if chunk[0] == 5 { None } else { Some(vec![chunk[0], chunk[3]]) })
}

#[test]
fn chunks_are_cut_and_the_rest_waits() {
    let mut c = SampleRateConverter::<i32>::new(1, 2, 4, |a, b, n| {
        assert_eq!((a, b, n), (1, 2, 4));
        Ok(())
    })
    .unwrap();
    let (out, seen) = c.process(&[1, 2, 3], |s| s as i32, Vec::new(), ends_of, |s| s as i16);
    assert_eq!((out, seen.len()), (vec![], 0));
    let (out, seen) = c.process(&[4, 5, 6, 7, 8, 9], |s| s as i32, seen, ends_of, |s| s as i16);
    assert_eq!((out, seen), (vec![1, 4], vec![vec![1, 2, 3, 4], vec![5, 6, 7, 8]]));
    let (out, seen) = c.flush(0, Vec::new(), ends_of, |s| s as i16);
    assert_eq!(out, vec![9, 0, 0, 0, 0, 0, 0, 0]);
    assert_eq!(seen, vec![vec![9, 0, 0, 0], vec![0; 4], vec![0; 4], vec![0; 4]]);
    let (out, seen) = c.flush(0, seen, |_, _| panic!("nothing waits"), |s| s as i16);
    assert_eq!((out, seen.len()), (vec![], 4));
}

#[test]
fn flush_stops_when_a_pass_gives_nothing() {
    let mut c = SampleRateConverter::<i32>::new(1, 1, 2, |_, _, _| Ok(())).unwrap();
    assert_eq!(c.process(&[3], |s| s as i32, (), |_, _| panic!("not full"), |s| s as i16).0, vec![]);
    let (out, passes) = c.flush(
        0,
        0,
        |passes, chunk| (passes + 1, if chunk[0] == 3 { Some(vec![7]) } else { Some(vec![]) }),
        |s| s as i16,
    );
    assert_eq!((out, passes), (vec![7], 2));
}

#[test]
fn converter_errors_say_where_they_arose() {
    let e = SampleRateConverter::<f32>::new(0, 1, 4, |_, _, _| Err("bad ratio".to_owned())).unwrap_err();
    assert_eq!(e, "resampler init failed: bad ratio");
    assert_eq!((PIPELINE_SAMPLE_RATE, TELEPHONY_SAMPLE_RATE), (16_000, 8_000));
}

#[test]
fn converted_samples_do_not_depend_on_the_calls() {
    let input: Vec<i16> = (0..700).map(|i| ((i as f32 * 0.05).sin() * 8000.0) as i16).collect();
    let whole = converter(8000, 16000, 160).process(&input);
    let mut cut = converter(8000, 16000, 160);
    let mut parts = cut.process(&input[..131]);
    parts.extend(cut.process(&input[131..132]));
    parts.extend(cut.process(&input[132..]));
    assert!(!whole.is_empty());
    assert_eq!(parts, whole);
}

#[test]
fn there_is_no_converter_of_empty_chunks() {
    let refused = SampleRateConverter::<f32>::new(8000, 16000, 0, |_, _, chunk| {
        let params = SincInterpolationParameters {
            sinc_len: 128,
            f_cutoff: 0.9,
            interpolation: SincInterpolationType::Quadratic,
            oversampling_factor: 256,
            window: WindowFunction::Blackman2,
        };
        match Async::<f32>::new_sinc(2.0, 2.0, &params, chunk, 1, FixedAsync::Input) {
            Ok(_) => Ok(()),
            Err(e) => Err(e.to_string()),
        }
    });
    assert_eq!(refused.unwrap_err(), "resampler init failed: Invalid chunk_size provided: 0. chunk_size must be >= 1");
    let refused = SampleRateConverter::<f32>::new(8000, 16000, 0, |_, _, _| Ok(()));
    assert_eq!(refused.unwrap_err(), "resampler init failed: chunk_size must be >= 1");
}

#[test]
fn quiet_frames_keep_the_gain_however_many() {
    let mut agc = agc(3000.0, 20.0);
    apply(&mut agc, &mut [6000i16; 160]);
    let held = agc.gain();
    for _ in 0..50 {
        let mut hush = [7i16; 160];
        apply(&mut agc, &mut hush);
        assert_eq!(agc.gain(), held);
        assert!(hush.iter().all(|&s| s == (7.0 * held).round() as i16));
    }
    for level in [100i16, 20000, 40, 3000] {
        apply(&mut agc, &mut [level; 160]);
        assert!(agc.gain() >= 0.0 && agc.gain() <= 10.0);
    }
}
