//! Signal processing stages: the buffering around a denoiser and around a sample rate converter.
//!
//! The stages are generic in the sample type. What a denoiser or a resampler does to one frame is
//! handed in, together with its state; which frames it gets, in what order, and what becomes of its
//! output stands here.

use vstd::prelude::*;
use vstd::string::StringExecFns;
use crate::framing::{
    append_copy, frame_at, frame_count, frame_count_is, frame_rest, frames, frames_are_cut_in_order,
    frames_cover, frames_ignore_calls, joined, joined_concat, joined_push, joined_runs_keep_their_order,
};

verus! {

/// The sample rate of the processing chain.
pub const PIPELINE_SAMPLE_RATE: u32 = 16_000;

/// The sample rate of telephony.
pub const TELEPHONY_SAMPLE_RATE: u32 = 8_000;

/// One frame of mono audio.
pub type PcmFrame = Vec<i16>;

/// The number of samples that the denoiser takes at a time.
pub const FRAME_SIZE: usize = 480;

/// `nnnoiseless::FRAME_SIZE`: the frame length of the denoiser, which is 480 samples.
#[verifier::external_body]
fn denoiser_frame_size() -> (r: usize)
    ensures
        r == FRAME_SIZE,
{
    nnnoiseless::FRAME_SIZE
}

/// A denoising stage. Samples wait until they fill a frame; a stage that is switched off hands
/// samples through.
#[derive(Debug)]
pub struct DenoiseStage<S> {
    enabled: bool,
    in_buf: Vec<S>,
}

/// Whether `outs` are what the denoiser made of `frames`, one for one and in order: `states` are the
/// states that it passed through, the first before the first frame and the last behind the last.
pub open spec fn denoised<S, D, F>(
    denoise: F,
    frames: Seq<Seq<S>>,
    states: Seq<D>,
    outs: Seq<Seq<S>>,
) -> bool
    where
        F: Fn(D, &[S]) -> (D, Vec<S>),
{
    &&& outs.len() == frames.len()
    &&& states.len() == frames.len() + 1
    &&& forall|i: int|
        0 <= i < outs.len() ==> #[trigger] denoised_frame(
            denoise,
            states[i],
            frames[i],
            states[i + 1],
            outs[i],
        )
}

/// Whether the denoiser made `out` of one frame, and went from the state `before` to `after`.
pub open spec fn denoised_frame<S, D, F>(
    denoise: F,
    before: D,
    frame: Seq<S>,
    after: D,
    out: Seq<S>,
) -> bool
    where
        F: Fn(D, &[S]) -> (D, Vec<S>),
{
    exists|f: &[S], v: Vec<S>| #[trigger]
        denoise.ensures((before, f), (after, v)) && f@ == frame && v@ == out
}

/// Where a stream is cut into calls of [`DenoiseStage::process`] is of no account: what two calls give,
/// one behind the other, is what one call with both inputs gives, and the same samples wait after. The
/// second call starts with the state that the first one left.
pub proof fn denoising_ignores_calls<S, D, F>(
    denoise: F,
    waiting: Seq<S>,
    first: Seq<S>,
    second: Seq<S>,
    states_first: Seq<D>,
    states_second: Seq<D>,
    outs_first: Seq<Seq<S>>,
    outs_second: Seq<Seq<S>>,
)
    where
        F: Fn(D, &[S]) -> (D, Vec<S>),
    requires
        denoised(denoise, frames(waiting + first, FRAME_SIZE as nat), states_first, outs_first),
        denoised(
            denoise,
            frames(frame_rest(waiting + first, FRAME_SIZE as nat) + second, FRAME_SIZE as nat),
            states_second,
            outs_second,
        ),
        states_second[0] == states_first.last(),
    ensures
        denoised(
            denoise,
            frames(waiting + (first + second), FRAME_SIZE as nat),
            states_first + states_second.skip(1),
            outs_first + outs_second,
        ),
        (states_first + states_second.skip(1))[0] == states_first[0],
        (states_first + states_second.skip(1)).last() == states_second.last(),
        joined(outs_first + outs_second) == joined(outs_first) + joined(outs_second),
        frame_rest(
            frame_rest(waiting + first, FRAME_SIZE as nat) + second,
            FRAME_SIZE as nat,
        ) == frame_rest(waiting + (first + second), FRAME_SIZE as nat),
{
    let size = FRAME_SIZE as nat;
    frames_ignore_calls(waiting + first, second, size);
    assert((waiting + first) + second =~= waiting + (first + second));
    joined_concat(outs_first, outs_second);
    let chunks = frames(waiting + (first + second), size);
    let states = states_first + states_second.skip(1);
    let outs = outs_first + outs_second;
    assert forall|i: int| 0 <= i < outs.len() implies #[trigger] denoised_frame(
        denoise,
        states[i],
        chunks[i],
        states[i + 1],
        outs[i],
    ) by {
        if i < outs_first.len() {
            assert(denoised_frame(
                denoise,
                states_first[i],
                frames(waiting + first, size)[i],
                states_first[i + 1],
                outs_first[i],
            ));
        } else {
            let j = i - outs_first.len();
            assert(denoised_frame(
                denoise,
                states_second[j],
                frames(frame_rest(waiting + first, size) + second, size)[j],
                states_second[j + 1],
                outs_second[j],
            ));
        }
    }
}

/// Every frame is denoised once, in order, and its output stands where it stood: the `i`-th 480 samples
/// of the stream go to the denoiser in the state that the frames before them have left, and the `i`-th
/// 480 samples that come out are what it made of them.
pub proof fn every_frame_is_denoised_in_its_place<S, D, F>(
    denoise: F,
    stream: Seq<S>,
    states: Seq<D>,
    outs: Seq<Seq<S>>,
    i: int,
)
    where
        F: Fn(D, &[S]) -> (D, Vec<S>),
    requires
        0 <= i < stream.len() / 480,
        denoised(denoise, frames(stream, FRAME_SIZE as nat), states, outs),
        forall|d: D, f: &[S], e: D, v: Vec<S>| #[trigger]
            denoise.ensures((d, f), (e, v)) && f@.len() == 480 ==> v@.len() == 480,
    ensures
        joined(outs).len() == (stream.len() / 480) * 480,
        states.len() == stream.len() / 480 + 1,
        exists|f: &[S], v: Vec<S>| #[trigger]
            denoise.ensures((states[i], f), (states[i + 1], v)) && f@ == stream.subrange(
                i * 480,
                i * 480 + 480,
            ) && v@ == joined(outs).subrange(i * 480, i * 480 + 480),
{
    frames_are_cut_in_order(stream, 480);
    let chunks = frames(stream, 480);
    assert forall|i: int| 0 <= i < outs.len() implies (#[trigger] outs[i]).len() == 480 by {
        assert(denoised_frame(denoise, states[i], chunks[i], states[i + 1], outs[i]));
        assert(chunks[i].len() == 480);
    }
    joined_runs_keep_their_order(outs, 480);
    assert(denoised_frame(denoise, states[i], chunks[i], states[i + 1], outs[i]));
    let (f, v) = choose|f: &[S], v: Vec<S>| #[trigger]
        denoise.ensures((states[i], f), (states[i + 1], v)) && f@ == chunks[i] && v@ == outs[i];
    assert(chunks[i] =~= stream.subrange(i * 480, i * 480 + 480)) by {
        assert forall|j: int| 0 <= j < 480 implies chunks[i][j] == stream.subrange(
            i * 480,
            i * 480 + 480,
        )[j] by {
            assert(chunks[i][j] == stream[i * 480 + j]);
        }
    }
    assert(v@ == joined(outs).subrange(i * 480, i * 480 + 480));
    assert(denoise.ensures((states[i], f), (states[i + 1], v)));
}

impl<S> DenoiseStage<S> {
    #[verifier::type_invariant]
    closed spec fn short_of_a_frame(&self) -> bool {
        self.in_buf@.len() < FRAME_SIZE && (!self.enabled ==> self.in_buf@.len() == 0)
    }
}

impl<S: Copy> DenoiseStage<S> {
    /// Whether the stage is on.
    pub closed spec fn on(&self) -> bool {
        self.enabled
    }

    /// The samples that wait for their frame to be full.
    pub closed spec fn waiting(&self) -> Seq<S> {
        self.in_buf@
    }

    /// A stage that is on or off, with nothing waiting.
    pub fn new(enabled: bool) -> (r: DenoiseStage<S>)
        ensures
            r.on() == enabled,
            r.waiting().len() == 0,
    {
        DenoiseStage { enabled, in_buf: Vec::with_capacity(FRAME_SIZE) }
    }

    /// Whether the stage is on.
    pub fn is_enabled(&self) -> (r: bool)
        ensures
            r == self.on(),
    {
        self.enabled
    }

    /// Takes samples and puts what comes out of the stage into `out`, in place of what was there.
    ///
    /// A stage that is off hands the samples through at once. One that is on denoises every frame
    /// that is full by now, once and in order, and less than a frame stays waiting. `denoise` turns
    /// its state and one frame into its next state and one frame; `state` is the state that it starts
    /// with, and the one that it ends with is returned.
    pub fn process<D, F>(&mut self, input: &[S], out: &mut Vec<S>, state: D, denoise: F) -> (after: D)
        where
            F: Fn(D, &[S]) -> (D, Vec<S>),
        requires
            old(self).on() ==> forall|d: D, f: &[S]|
                f@.len() == FRAME_SIZE ==> #[trigger] denoise.requires((d, f)),
            forall|d: D, f: &[S], e: D, v: Vec<S>| #[trigger]
                denoise.ensures((d, f), (e, v)) && f@.len() == FRAME_SIZE ==> v@.len() == FRAME_SIZE,
        ensures
            final(self).on() == old(self).on(),
            final(self).waiting().len() < FRAME_SIZE,
            !old(self).on() ==> final(out)@ == input@ && after == state && final(self).waiting()
                == old(self).waiting(),
            old(self).on() ==> {
                &&& final(self).waiting() == frame_rest(
                    old(self).waiting() + input@,
                    FRAME_SIZE as nat,
                )
                &&& exists|states: Seq<D>, outs: Seq<Seq<S>>|
                    {
                        &&& #[trigger] denoised(
                            denoise,
                            frames(old(self).waiting() + input@, FRAME_SIZE as nat),
                            states,
                            outs,
                        )
                        &&& states[0] == state
                        &&& states.last() == after
                        &&& final(out)@ == joined(outs)
                    }
                &&& final(out)@.len() == frame_count(
                    (old(self).waiting() + input@).len(),
                    FRAME_SIZE as nat,
                ) * FRAME_SIZE
            },
    {
        proof {
            use_type_invariant(&*self);
        }
        out.clear();
        if !self.enabled {
            append_copy(out, input);
            proof {
                assert(out@ =~= input@);
            }
            return state;
        }
        let size: usize = denoiser_frame_size();
        let ghost all = self.in_buf@ + input@;
        let mut pending: Vec<S> = Vec::new();
        append_copy(&mut pending, self.in_buf.as_slice());
        append_copy(&mut pending, input);
        let mut now: D = state;
        let ghost mut states: Seq<D> = seq![state];
        let ghost mut outs: Seq<Seq<S>> = Seq::empty();
        let ghost mut k: nat = 0;
        proof {
            assert(pending@ =~= all);
            assert(all.skip(0) =~= all);
        }
        while pending.len() >= size
            invariant
                size == FRAME_SIZE,
                forall|d: D, f: &[S]|
                    f@.len() == FRAME_SIZE ==> #[trigger] denoise.requires((d, f)),
                forall|d: D, f: &[S], e: D, v: Vec<S>| #[trigger]
                    denoise.ensures((d, f), (e, v)) && f@.len() == FRAME_SIZE ==> v@.len()
                        == FRAME_SIZE,
                k * FRAME_SIZE <= all.len(),
                pending@ == all.skip((k * FRAME_SIZE) as int),
                outs.len() == k,
                states.len() == k + 1,
                states[0] == state,
                states.last() == now,
                forall|i: int|
                    0 <= i < k ==> #[trigger] denoised_frame(
                        denoise,
                        states[i],
                        frame_at(all, FRAME_SIZE as nat, i),
                        states[i + 1],
                        outs[i],
                    ),
                out@ == joined(outs),
                out@.len() == k * FRAME_SIZE,
            decreases pending@.len(),
        {
            let rest = pending.split_off(size);
            let ghost before = states;
            let ghost done = outs;
            let (next, cleaned) = denoise(now, pending.as_slice());
            append_copy(out, cleaned.as_slice());
            proof {
                assert(pending@ =~= frame_at(all, FRAME_SIZE as nat, k as int));
                assert(denoised_frame(
                    denoise,
                    before.last(),
                    frame_at(all, FRAME_SIZE as nat, k as int),
                    next,
                    cleaned@,
                ));
                joined_push(done, cleaned@);
                states = before.push(next);
                outs = done.push(cleaned@);
                assert forall|i: int| 0 <= i < k + 1 implies #[trigger] denoised_frame(
                    denoise,
                    states[i],
                    frame_at(all, FRAME_SIZE as nat, i),
                    states[i + 1],
                    outs[i],
                ) by {
                    if i < k {
                        assert(states[i] == before[i] && states[i + 1] == before[i + 1]);
                        assert(outs[i] == done[i]);
                    }
                }
                assert(rest@ =~= all.skip(((k + 1) * FRAME_SIZE) as int));
                k = k + 1;
            }
            now = next;
            pending = rest;
        }
        proof {
            frame_count_is(all.len(), FRAME_SIZE as nat, k);
            let chunks = frames(all, FRAME_SIZE as nat);
            assert forall|i: int| 0 <= i < outs.len() implies #[trigger] denoised_frame(
                denoise,
                states[i],
                chunks[i],
                states[i + 1],
                outs[i],
            ) by {
                assert(chunks[i] == frame_at(all, FRAME_SIZE as nat, i));
            }
            assert(denoised(denoise, chunks, states, outs));
        }
        self.in_buf = pending;
        now
    }

    /// Starts afresh: what waits is dropped, and `renew` makes the denoiser forget what it heard.
    /// A stage that is off has nothing to forget.
    pub fn reset<F>(&mut self, renew: F)
        where
            F: FnOnce(),
        requires
            old(self).on() ==> renew.requires(()),
        ensures
            final(self).on() == old(self).on(),
            final(self).waiting().len() == 0,
            old(self).on() ==> renew.ensures((), ()),
    {
        proof {
            use_type_invariant(&*self);
        }
        if self.enabled {
            renew();
            self.in_buf = Vec::new();
        }
    }
}

/// Whether `conv` are the samples that `input` is converted to, one for one.
pub open spec fn converted<S, T>(to_sample: T, input: Seq<i16>, conv: Seq<S>) -> bool
    where
        T: Fn(i16) -> S,
{
    &&& conv.len() == input.len()
    &&& forall|i: int| 0 <= i < input.len() ==> #[trigger] to_sample.ensures((input[i],), conv[i])
}

/// Whether `out` is what a resampler's answer is converted to. A resampler that failed gives
/// nothing: its samples are dropped.
pub open spec fn rendered<S, P>(to_pcm: P, reply: Option<Vec<S>>, out: Seq<i16>) -> bool
    where
        P: Fn(S) -> i16,
{
    match reply {
        Some(v) => out.len() == v@.len() && forall|i: int|
            0 <= i < out.len() ==> #[trigger] to_pcm.ensures((v@[i],), out[i]),
        None => out.len() == 0,
    }
}

/// Whether `out` is what comes out for one chunk, with the resampler going from the state `before` to
/// `after`.
pub open spec fn resampled_chunk<S, D, R, P>(
    resample: R,
    to_pcm: P,
    before: D,
    chunk: Seq<S>,
    after: D,
    out: Seq<i16>,
) -> bool
    where
        R: Fn(D, &[S]) -> (D, Option<Vec<S>>),
        P: Fn(S) -> i16,
{
    exists|c: &[S], reply: Option<Vec<S>>|
        c@ == chunk && #[trigger] resample.ensures((before, c), (after, reply)) && rendered(
            to_pcm,
            reply,
            out,
        )
}

/// Whether `outs` are what comes out for `chunks`, one for one and in order: `states` are the states
/// that the resampler passed through, the first before the first chunk and the last behind the last.
pub open spec fn resampled<S, D, R, P>(
    resample: R,
    to_pcm: P,
    chunks: Seq<Seq<S>>,
    states: Seq<D>,
    outs: Seq<Seq<i16>>,
) -> bool
    where
        R: Fn(D, &[S]) -> (D, Option<Vec<S>>),
        P: Fn(S) -> i16,
{
    &&& outs.len() == chunks.len()
    &&& states.len() == chunks.len() + 1
    &&& forall|i: int|
        0 <= i < outs.len() ==> #[trigger] resampled_chunk(
            resample,
            to_pcm,
            states[i],
            chunks[i],
            states[i + 1],
            outs[i],
        )
}

/// Where a stream is cut into calls of [`SampleRateConverter::process`] is of no account: what two
/// calls give, one behind the other, is what one call with both inputs gives, and the same samples
/// wait after. `first` and `second` are the converted inputs, and the second call starts with the
/// state that the first one left.
pub proof fn resampling_ignores_calls<S, D, R, P>(
    resample: R,
    to_pcm: P,
    waiting: Seq<S>,
    first: Seq<S>,
    second: Seq<S>,
    chunk: nat,
    states_first: Seq<D>,
    states_second: Seq<D>,
    outs_first: Seq<Seq<i16>>,
    outs_second: Seq<Seq<i16>>,
)
    where
        R: Fn(D, &[S]) -> (D, Option<Vec<S>>),
        P: Fn(S) -> i16,
    requires
        chunk > 0,
        resampled(resample, to_pcm, frames(waiting + first, chunk), states_first, outs_first),
        resampled(
            resample,
            to_pcm,
            frames(frame_rest(waiting + first, chunk) + second, chunk),
            states_second,
            outs_second,
        ),
        states_second[0] == states_first.last(),
    ensures
        resampled(
            resample,
            to_pcm,
            frames(waiting + (first + second), chunk),
            states_first + states_second.skip(1),
            outs_first + outs_second,
        ),
        (states_first + states_second.skip(1))[0] == states_first[0],
        (states_first + states_second.skip(1)).last() == states_second.last(),
        joined(outs_first + outs_second) == joined(outs_first) + joined(outs_second),
        frame_rest(frame_rest(waiting + first, chunk) + second, chunk) == frame_rest(
            waiting + (first + second),
            chunk,
        ),
{
    frames_ignore_calls(waiting + first, second, chunk);
    assert((waiting + first) + second =~= waiting + (first + second));
    joined_concat(outs_first, outs_second);
    let chunks = frames(waiting + (first + second), chunk);
    let states = states_first + states_second.skip(1);
    let outs = outs_first + outs_second;
    assert forall|i: int| 0 <= i < outs.len() implies #[trigger] resampled_chunk(
        resample,
        to_pcm,
        states[i],
        chunks[i],
        states[i + 1],
        outs[i],
    ) by {
        if i < outs_first.len() {
            assert(resampled_chunk(
                resample,
                to_pcm,
                states_first[i],
                frames(waiting + first, chunk)[i],
                states_first[i + 1],
                outs_first[i],
            ));
        } else {
            let j = i - outs_first.len();
            assert(resampled_chunk(
                resample,
                to_pcm,
                states_second[j],
                frames(frame_rest(waiting + first, chunk) + second, chunk)[j],
                states_second[j + 1],
                outs_second[j],
            ));
        }
    }
}

/// Every sample is converted on its own, in its place, and none is added or lost.
pub proof fn samples_are_converted_one_for_one<S, T>(to_sample: T, input: Seq<i16>, conv: Seq<S>)
    where
        T: Fn(i16) -> S,
    requires
        converted(to_sample, input, conv),
    ensures
        conv.len() == input.len(),
        forall|i: int|
            0 <= i < input.len() ==> to_sample.ensures((input[i],), #[trigger] conv[i]),
{
}

/// Every chunk is resampled once, in order: the `i`-th `chunk` samples of the stream go to the resampler
/// in the state that the chunks before them have left. What it answers with is converted sample by
/// sample, all of it, and a failure gives nothing.
pub proof fn every_chunk_is_resampled_in_order<S, D, R, P>(
    resample: R,
    to_pcm: P,
    stream: Seq<S>,
    chunk: nat,
    states: Seq<D>,
    outs: Seq<Seq<i16>>,
    i: int,
)
    where
        R: Fn(D, &[S]) -> (D, Option<Vec<S>>),
        P: Fn(S) -> i16,
    requires
        chunk > 0,
        0 <= i < stream.len() / chunk,
        resampled(resample, to_pcm, frames(stream, chunk), states, outs),
    ensures
        outs.len() == stream.len() / chunk,
        states.len() == stream.len() / chunk + 1,
        exists|c: &[S], reply: Option<Vec<S>>| #[trigger]
            resample.ensures((states[i], c), (states[i + 1], reply)) && c@ == stream.subrange(
                i * chunk,
                i * chunk + chunk,
            ) && match reply {
                Some(v) => outs[i].len() == v@.len() && forall|j: int|
                    0 <= j < v@.len() ==> to_pcm.ensures((v@[j],), #[trigger] outs[i][j]),
                None => outs[i].len() == 0,
            },
{
    frames_are_cut_in_order(stream, chunk);
    let chunks = frames(stream, chunk);
    assert(resampled_chunk(resample, to_pcm, states[i], chunks[i], states[i + 1], outs[i]));
    let (c, reply) = choose|c: &[S], reply: Option<Vec<S>>|
        c@ == chunks[i] && #[trigger] resample.ensures((states[i], c), (states[i + 1], reply))
            && rendered(to_pcm, reply, outs[i]);
    assert(chunks[i] =~= stream.subrange(i * chunk, i * chunk + chunk)) by {
        assert forall|j: int| 0 <= j < chunk implies chunks[i][j] == stream.subrange(
            i * chunk,
            i * chunk + chunk,
        )[j] by {
            assert(chunks[i][j] == stream[i * chunk + j]);
        }
    }
    assert(resample.ensures((states[i], c), (states[i + 1], reply)));
}

/// A flush hands over what waits, sample by sample and first of all, and nothing but silence with it and
/// after it, in whole chunks. It makes at least one pass and at most four, and stops at the first that
/// gives nothing.
pub proof fn flush_pads_with_silence<S, D, R, P>(
    resample: R,
    to_pcm: P,
    waiting: Seq<S>,
    chunk: nat,
    silence: S,
    states: Seq<D>,
    outs: Seq<Seq<i16>>,
    i: int,
)
    where
        R: Fn(D, &[S]) -> (D, Option<Vec<S>>),
        P: Fn(S) -> i16,
    requires
        waiting.len() < chunk,
        0 <= i < outs.len(),
        flushed(resample, to_pcm, waiting, chunk, silence, states, outs),
    ensures
        1 <= outs.len() <= 4,
        states.len() == outs.len() + 1,
        i < outs.len() - 1 ==> outs[i].len() > 0,
        outs.len() < 4 ==> outs.last().len() == 0,
        exists|c: &[S], reply: Option<Vec<S>>| #[trigger]
            resample.ensures((states[i], c), (states[i + 1], reply)) && c@.len() == chunk && (forall|
                j: int,
            |
                0 <= j < chunk ==> #[trigger] c@[j] == if i == 0 && j < waiting.len() {
                    waiting[j]
                } else {
                    silence
                }) && match reply {
                Some(v) => outs[i].len() == v@.len() && forall|j: int|
                    0 <= j < v@.len() ==> to_pcm.ensures((v@[j],), #[trigger] outs[i][j]),
                None => outs[i].len() == 0,
            },
{
    let piece = flush_chunk(waiting, chunk, silence, i);
    assert(resampled_chunk(resample, to_pcm, states[i], piece, states[i + 1], outs[i]));
    let (c, reply) = choose|c: &[S], reply: Option<Vec<S>>|
        c@ == piece && #[trigger] resample.ensures((states[i], c), (states[i + 1], reply))
            && rendered(to_pcm, reply, outs[i]);
    assert(resample.ensures((states[i], c), (states[i + 1], reply)));
}

/// The chunk of the `i`-th pass of a flush: first what waits, filled up with silence, then silence.
pub open spec fn flush_chunk<S>(waiting: Seq<S>, chunk: nat, silence: S, i: int) -> Seq<S> {
    if i == 0 {
        waiting + Seq::new((chunk - waiting.len()) as nat, |j: int| silence)
    } else {
        Seq::new(chunk, |j: int| silence)
    }
}

/// The most passes that a flush makes.
pub const FLUSH_PASSES: usize = 4;

/// A converter of sample rates for one stream. Samples wait until they fill a chunk of the
/// resampler.
#[derive(Debug)]
pub struct SampleRateConverter<S> {
    residual: Vec<S>,
    chunk_size: usize,
}

impl<S> SampleRateConverter<S> {
    #[verifier::type_invariant]
    closed spec fn short_of_a_chunk(&self) -> bool {
        self.residual@.len() < self.chunk_size
    }
}

impl<S: Copy> SampleRateConverter<S> {
    /// The number of samples that the resampler takes at a time.
    pub closed spec fn chunk(&self) -> nat {
        self.chunk_size as nat
    }

    /// The samples that wait for their chunk to be full.
    pub closed spec fn waiting(&self) -> Seq<S> {
        self.residual@
    }

    /// Makes a converter. `init` sets up the resampler, which takes `chunk_size` samples at a time;
    /// its error is passed on with a word of where it arose. There is no converter of empty chunks.
    pub fn new<F>(src_rate: u32, dst_rate: u32, chunk_size: usize, init: F) -> (r:
        core::result::Result<
        SampleRateConverter<S>,
        String,
    >)
        where
            F: FnOnce(u32, u32, usize) -> core::result::Result<(), String>,
        requires
            init.requires((src_rate, dst_rate, chunk_size)),
        ensures
            exists|reply: core::result::Result<(), String>| #[trigger]
                init.ensures((src_rate, dst_rate, chunk_size), reply) && match reply {
                    Ok(_) => if chunk_size > 0 {
                        r matches Ok(c) && c.chunk() == chunk_size && c.waiting().len() == 0
                    } else {
                        r matches Err(m) && m@ == "resampler init failed: "@
                            + "chunk_size must be >= 1"@
                    },
                    Err(e) => r matches Err(m) && m@ == "resampler init failed: "@ + e@,
                },
    {
        let set_up = match init(src_rate, dst_rate, chunk_size) {
            Ok(_) => if chunk_size > 0 {
                Ok(())
            } else {
                Err("chunk_size must be >= 1".to_string())
            },
            Err(e) => Err(e),
        };
        match set_up {
            Ok(_) => Ok(SampleRateConverter { residual: Vec::new(), chunk_size }),
            Err(e) => {
                let mut m = String::new();
                m.append("resampler init failed: ");
                m.append(e.as_str());
                proof {
                    assert(m@ =~= "resampler init failed: "@ + e@);
                }
                Err(m)
            },
        }
    }

    /// Converts samples. What waited comes first, every chunk that is full by now is resampled, once
    /// and in order, and less than a chunk stays waiting.
    ///
    /// `to_sample` and `to_pcm` convert single samples, `resample` a chunk: it turns its state and a
    /// chunk into its next state and its output. `state` is the state that it starts with; the one
    /// that it ends with is returned beside the samples. Where `resample` fails the chunk is dropped
    /// and the stream goes on.
    pub fn process<D, T, R, P>(
        &mut self,
        input: &[i16],
        to_sample: T,
        state: D,
        resample: R,
        to_pcm: P,
    ) -> (r: (Vec<i16>, D))
        where
            T: Fn(i16) -> S,
            R: Fn(D, &[S]) -> (D, Option<Vec<S>>),
            P: Fn(S) -> i16,
        requires
            forall|s: i16| to_sample.requires((s,)),
            forall|d: D, c: &[S]|
                c@.len() == old(self).chunk() ==> #[trigger] resample.requires((d, c)),
            forall|s: S| to_pcm.requires((s,)),
        ensures
            final(self).chunk() == old(self).chunk(),
            final(self).waiting().len() < final(self).chunk(),
            exists|conv: Seq<S>, states: Seq<D>, outs: Seq<Seq<i16>>|
                {
                    &&& #[trigger] converted(to_sample, input@, conv)
                    &&& final(self).waiting() == frame_rest(
                        old(self).waiting() + conv,
                        old(self).chunk(),
                    )
                    &&& #[trigger] resampled(
                        resample,
                        to_pcm,
                        frames(old(self).waiting() + conv, old(self).chunk()),
                        states,
                        outs,
                    )
                    &&& states[0] == state
                    &&& states.last() == r.1
                    &&& r.0@ == joined(outs)
                },
    {
        proof {
            use_type_invariant(&*self);
        }
        let chunk: usize = self.chunk_size;
        let ghost before = self.residual@;
        let mut pending: Vec<S> = Vec::new();
        append_copy(&mut pending, self.residual.as_slice());
        proof {
            assert(pending@ =~= before);
        }
        let ghost mut conv: Seq<S> = Seq::empty();
        let mut i: usize = 0;
        while i < input.len()
            invariant
                i <= input@.len(),
                forall|s: i16| to_sample.requires((s,)),
                conv.len() == i,
                forall|j: int|
                    0 <= j < i ==> #[trigger] to_sample.ensures((input@[j],), conv[j]),
                pending@ == before + conv,
            decreases input@.len() - i,
        {
            let s: S = to_sample(input[i]);
            pending.push(s);
            proof {
                conv = conv.push(s);
                assert(pending@ =~= before + conv);
            }
            i = i + 1;
        }
        proof {
            assert(converted(to_sample, input@, conv));
        }
        let ghost all = before + conv;
        let mut now: D = state;
        let ghost mut states: Seq<D> = seq![state];
        let ghost mut outs: Seq<Seq<i16>> = Seq::empty();
        let ghost mut k: nat = 0;
        let mut out: Vec<i16> = Vec::new();
        proof {
            assert(all.skip(0) =~= all);
            assert(k * chunk == 0) by (nonlinear_arith)
                requires
                    k == 0,
            ;
        }
        while pending.len() >= chunk
            invariant
                chunk > 0,
                forall|d: D, c: &[S]| c@.len() == chunk ==> #[trigger] resample.requires((d, c)),
                forall|s: S| to_pcm.requires((s,)),
                k * chunk <= all.len(),
                pending@ == all.skip((k * chunk) as int),
                outs.len() == k,
                states.len() == k + 1,
                states[0] == state,
                states.last() == now,
                forall|i: int|
                    0 <= i < k ==> #[trigger] resampled_chunk(
                        resample,
                        to_pcm,
                        states[i],
                        frame_at(all, chunk as nat, i),
                        states[i + 1],
                        outs[i],
                    ),
                out@ == joined(outs),
            decreases pending@.len(),
        {
            let rest = pending.split_off(chunk);
            let ghost passed = states;
            let ghost done = outs;
            let (next, piece) = resample_chunk(now, pending.as_slice(), &resample, &to_pcm);
            append_copy(&mut out, piece.as_slice());
            proof {
                assert(pending@ =~= frame_at(all, chunk as nat, k as int));
                joined_push(done, piece@);
                states = passed.push(next);
                outs = done.push(piece@);
                assert forall|i: int| 0 <= i < k + 1 implies #[trigger] resampled_chunk(
                    resample,
                    to_pcm,
                    states[i],
                    frame_at(all, chunk as nat, i),
                    states[i + 1],
                    outs[i],
                ) by {
                    if i < k {
                        assert(states[i] == passed[i] && states[i + 1] == passed[i + 1]);
                        assert(outs[i] == done[i]);
                    }
                }
                assert((k + 1) * chunk == k * chunk + chunk) by (nonlinear_arith);
                assert(rest@ =~= all.skip(((k + 1) * chunk) as int));
                k = k + 1;
            }
            now = next;
            pending = rest;
        }
        proof {
            frame_count_is(all.len(), chunk as nat, k);
            assert(old(self).waiting() + conv == all);
            assert(old(self).chunk() == chunk as nat);
            let chunks = frames(old(self).waiting() + conv, old(self).chunk());
            assert forall|i: int| 0 <= i < outs.len() implies #[trigger] resampled_chunk(
                resample,
                to_pcm,
                states[i],
                chunks[i],
                states[i + 1],
                outs[i],
            ) by {
                assert(chunks[i] == frame_at(all, chunk as nat, i));
            }
            assert(resampled(resample, to_pcm, chunks, states, outs));
        }
        self.residual = pending;
        (out, now)
    }

    /// Ends the stream: what waits is filled up with silence and resampled, and silence follows it
    /// until a pass gives nothing, or for as many passes as it takes at most. Nothing waits after,
    /// and where nothing waited before, nothing is done. The state is passed on as in
    /// [`SampleRateConverter::process`].
    pub fn flush<D, R, P>(&mut self, silence: S, state: D, resample: R, to_pcm: P) -> (r: (
        Vec<i16>,
        D,
    ))
        where
            R: Fn(D, &[S]) -> (D, Option<Vec<S>>),
            P: Fn(S) -> i16,
        requires
            old(self).waiting().len() > 0 ==> forall|d: D, c: &[S]|
                c@.len() == old(self).chunk() ==> #[trigger] resample.requires((d, c)),
            forall|s: S| to_pcm.requires((s,)),
        ensures
            final(self).chunk() == old(self).chunk(),
            final(self).waiting().len() == 0,
            old(self).waiting().len() == 0 ==> r.0@.len() == 0 && r.1 == state,
            old(self).waiting().len() > 0 ==> exists|states: Seq<D>, outs: Seq<Seq<i16>>|
                {
                    &&& #[trigger] flushed(
                        resample,
                        to_pcm,
                        old(self).waiting(),
                        old(self).chunk(),
                        silence,
                        states,
                        outs,
                    )
                    &&& states[0] == state
                    &&& states.last() == r.1
                    &&& r.0@ == joined(outs)
                },
    {
        proof {
            use_type_invariant(&*self);
        }
        let mut out: Vec<i16> = Vec::new();
        if self.residual.len() == 0 {
            return (out, state);
        }
        let chunk: usize = self.chunk_size;
        let ghost waiting = self.residual@;
        let mut block: Vec<S> = Vec::new();
        append_copy(&mut block, self.residual.as_slice());
        proof {
            assert(block@ =~= waiting);
        }
        let mut now: D = state;
        let ghost mut states: Seq<D> = seq![state];
        let ghost mut outs: Seq<Seq<i16>> = Seq::empty();
        let mut pass: usize = 0;
        let mut drained: bool = false;
        while pass < FLUSH_PASSES && !drained
            invariant
                0 < waiting.len() < chunk,
                pass <= FLUSH_PASSES,
                forall|d: D, c: &[S]| c@.len() == chunk ==> #[trigger] resample.requires((d, c)),
                forall|s: S| to_pcm.requires((s,)),
                outs.len() == pass,
                states.len() == pass + 1,
                states[0] == state,
                states.last() == now,
                pass == 0 ==> !drained && block@ == waiting,
                pass > 0 ==> block@.len() == 0,
                forall|i: int|
                    0 <= i < pass ==> #[trigger] resampled_chunk(
                        resample,
                        to_pcm,
                        states[i],
                        flush_chunk(waiting, chunk as nat, silence, i),
                        states[i + 1],
                        outs[i],
                    ),
                forall|i: int| 0 <= i < pass - 1 ==> (#[trigger] outs[i]).len() > 0,
                pass > 0 ==> (drained <==> outs.last().len() == 0),
                out@ == joined(outs),
            decreases FLUSH_PASSES - pass,
        {
            let ghost held = block@;
            while block.len() < chunk
                invariant
                    held.len() <= block@.len() <= chunk,
                    block@ == held + Seq::new((block@.len() - held.len()) as nat, |j: int| silence),
                decreases chunk - block@.len(),
            {
                block.push(silence);
                proof {
                    assert(block@ =~= held + Seq::new(
                        (block@.len() - held.len()) as nat,
                        |j: int| silence,
                    ));
                }
            }
            let ghost padded = block@;
            proof {
                assert(padded =~= flush_chunk(waiting, chunk as nat, silence, pass as int));
            }
            let ghost passed = states;
            let ghost done = outs;
            let (next, piece) = resample_chunk(now, block.as_slice(), &resample, &to_pcm);
            append_copy(&mut out, piece.as_slice());
            drained = piece.len() == 0;
            block = Vec::new();
            proof {
                joined_push(done, piece@);
                states = passed.push(next);
                outs = done.push(piece@);
                assert forall|i: int| 0 <= i < pass + 1 implies #[trigger] resampled_chunk(
                    resample,
                    to_pcm,
                    states[i],
                    flush_chunk(waiting, chunk as nat, silence, i),
                    states[i + 1],
                    outs[i],
                ) by {
                    if i < pass {
                        assert(states[i] == passed[i] && states[i + 1] == passed[i + 1]);
                        assert(outs[i] == done[i]);
                    }
                }
            }
            now = next;
            pass = pass + 1;
        }
        proof {
            assert(old(self).waiting() == waiting);
            assert(old(self).chunk() == chunk as nat);
            assert(flushed(
                resample,
                to_pcm,
                old(self).waiting(),
                old(self).chunk(),
                silence,
                states,
                outs,
            ));
        }
        self.residual = Vec::new();
        (out, now)
    }
}

/// What comes out for one chunk, and the state that the resampler is in after.
fn resample_chunk<S, D, R, P>(state: D, chunk: &[S], resample: &R, to_pcm: &P) -> (r: (D, Vec<i16>))
    where
        S: Copy,
        R: Fn(D, &[S]) -> (D, Option<Vec<S>>),
        P: Fn(S) -> i16,
    requires
        resample.requires((state, chunk)),
        forall|s: S| to_pcm.requires((s,)),
    ensures
        resampled_chunk(*resample, *to_pcm, state, chunk@, r.0, r.1@),
{
    let mut out: Vec<i16> = Vec::new();
    let (after, reply) = resample(state, chunk);
    match reply {
        Some(v) => {
            let mut i: usize = 0;
            while i < v.len()
                invariant
                    i <= v@.len(),
                    forall|s: S| to_pcm.requires((s,)),
                    out@.len() == i,
                    forall|j: int| 0 <= j < i ==> #[trigger] to_pcm.ensures((v@[j],), out@[j]),
                decreases v@.len() - i,
            {
                let s: S = v[i];
                let p: i16 = to_pcm(s);
                out.push(p);
                i = i + 1;
            }
            proof {
                assert(rendered(*to_pcm, Some(v), out@));
            }
            (after, out)
        },
        None => {
            proof {
                assert(rendered(*to_pcm, None::<Vec<S>>, out@));
            }
            (after, out)
        },
    }
}

/// Whether `outs` are the passes of a flush: at least one and at most [`FLUSH_PASSES`], each but the
/// last with some output, and the last without, unless it is the last that is allowed. `states` are
/// the states that the resampler passed through.
pub open spec fn flushed<S, D, R, P>(
    resample: R,
    to_pcm: P,
    waiting: Seq<S>,
    chunk: nat,
    silence: S,
    states: Seq<D>,
    outs: Seq<Seq<i16>>,
) -> bool
    where
        R: Fn(D, &[S]) -> (D, Option<Vec<S>>),
        P: Fn(S) -> i16,
{
    &&& 1 <= outs.len() <= FLUSH_PASSES
    &&& states.len() == outs.len() + 1
    &&& forall|i: int|
        0 <= i < outs.len() ==> #[trigger] resampled_chunk(
            resample,
            to_pcm,
            states[i],
            flush_chunk(waiting, chunk, silence, i),
            states[i + 1],
            outs[i],
        )
    &&& forall|i: int| 0 <= i < outs.len() - 1 ==> (#[trigger] outs[i]).len() > 0
    &&& outs.len() == FLUSH_PASSES || outs.last().len() == 0
}

/// The number of samples that the level meter squares at a time.
pub const RMS_LANES: usize = 8;

/// Whether `accs` are the successive states of an accumulation over `chunks`, from `start` on.
pub open spec fn accumulated<V, A>(accumulate: A, start: V, chunks: Seq<Seq<i16>>, accs: Seq<V>) ->
    bool
    where
        A: Fn(V, &[i16]) -> V,
{
    &&& accs.len() == chunks.len() + 1
    &&& accs[0] == start
    &&& forall|i: int|
        0 <= i < chunks.len() ==> #[trigger] accumulated_chunk(
            accumulate,
            accs[i],
            chunks[i],
            accs[i + 1],
        )
}

/// Whether `after` is `before` with one chunk accumulated.
pub open spec fn accumulated_chunk<V, A>(accumulate: A, before: V, chunk: Seq<i16>, after: V) -> bool
    where
        A: Fn(V, &[i16]) -> V,
{
    exists|c: &[i16]| c@ == chunk && #[trigger] accumulate.ensures((before, c), after)
}

/// Whether `sums` are the successive sums of squares over `samples`, from `start` on.
pub open spec fn summed<T, Q>(add_square: Q, start: T, samples: Seq<i16>, sums: Seq<T>) -> bool
    where
        Q: Fn(T, i16) -> T,
{
    &&& sums.len() == samples.len() + 1
    &&& sums[0] == start
    &&& forall|i: int|
        0 <= i < samples.len() ==> #[trigger] add_square.ensures((sums[i], samples[i]), sums[i + 1])
}

/// Adds the squares of samples to a sum, one after the other.
fn sum_squares<T, Q>(start: T, samples: &[i16], add_square: &Q) -> (r: T)
    where
        T: Copy,
        Q: Fn(T, i16) -> T,
    requires
        forall|t: T, s: i16| add_square.requires((t, s)),
    ensures
        exists|sums: Seq<T>| #[trigger]
            summed(*add_square, start, samples@, sums) && r == sums.last(),
{
    let mut sum: T = start;
    let ghost mut sums: Seq<T> = seq![start];
    let mut i: usize = 0;
    while i < samples.len()
        invariant
            i <= samples@.len(),
            forall|t: T, s: i16| add_square.requires((t, s)),
            sums.len() == i + 1,
            sums[0] == start,
            sum == sums.last(),
            forall|j: int|
                0 <= j < i ==> #[trigger] add_square.ensures((sums[j], samples@[j]), sums[j + 1]),
        decreases samples@.len() - i,
    {
        let ghost before = sums;
        sum = add_square(sum, samples[i]);
        proof {
            sums = before.push(sum);
            assert forall|j: int| 0 <= j < i + 1 implies #[trigger] add_square.ensures(
                (sums[j], samples@[j]),
                sums[j + 1],
            ) by {
                if j < i {
                    assert(sums[j] == before[j] && sums[j + 1] == before[j + 1]);
                } else {
                    assert(sums[j] == before.last());
                }
            }
        }
        i = i + 1;
    }
    proof {
        assert(summed(*add_square, start, samples@, sums));
    }
    sum
}

/// The level of samples: the root of their mean square, and `zero` where there are none.
///
/// From eight samples on they are taken eight at a time: `accumulate` adds the squares of eight
/// samples to an accumulator that starts as `empty`, `horizontal` makes one sum of it, and
/// `add_square` adds what is left over, one by one. Fewer samples are added one by one. `finish`
/// turns the sum and the number of samples into the level.
pub fn rms<T, V, A, H, Q, E>(
    samples: &[i16],
    zero: T,
    empty: V,
    accumulate: A,
    horizontal: H,
    add_square: Q,
    finish: E,
) -> (r: T)
    where
        T: Copy,
        V: Copy,
        A: Fn(V, &[i16]) -> V,
        H: Fn(V) -> T,
        Q: Fn(T, i16) -> T,
        E: Fn(T, usize) -> T,
    requires
        forall|v: V, c: &[i16]| c@.len() == RMS_LANES ==> accumulate.requires((v, c)),
        forall|v: V| horizontal.requires((v,)),
        forall|t: T, s: i16| add_square.requires((t, s)),
        forall|t: T, n: usize| n > 0 ==> finish.requires((t, n)),
    ensures
        samples@.len() == 0 ==> r == zero,
        0 < samples@.len() < RMS_LANES ==> exists|sums: Seq<T>| #[trigger]
            summed(add_square, zero, samples@, sums) && finish.ensures(
                (sums.last(), samples@.len() as usize),
                r,
            ),
        samples@.len() >= RMS_LANES ==> exists|accs: Seq<V>, sum: T, sums: Seq<T>|
            #[trigger] accumulated(
                accumulate,
                empty,
                frames(samples@, RMS_LANES as nat),
                accs,
            ) && #[trigger] horizontal.ensures((accs.last(),), sum) && #[trigger] summed(
                add_square,
                sum,
                frame_rest(samples@, RMS_LANES as nat),
                sums,
            ) && finish.ensures((sums.last(), samples@.len() as usize), r),
{
    if samples.len() == 0 {
        return zero;
    }
    let n: usize = samples.len();
    if n < RMS_LANES {
        let sum: T = sum_squares(zero, samples, &add_square);
        return finish(sum, n);
    }
    let mut acc: V = empty;
    let ghost mut accs: Seq<V> = seq![empty];
    let ghost mut k: nat = 0;
    let mut rest: &[i16] = samples;
    proof {
        assert(samples@.skip(0) =~= samples@);
    }
    while rest.len() >= RMS_LANES
        invariant
            forall|v: V, c: &[i16]| c@.len() == RMS_LANES ==> accumulate.requires((v, c)),
            k * RMS_LANES <= samples@.len(),
            rest@ == samples@.skip((k * RMS_LANES) as int),
            accs.len() == k + 1,
            accs[0] == empty,
            acc == accs.last(),
            forall|i: int|
                0 <= i < k ==> #[trigger] accumulated_chunk(
                    accumulate,
                    accs[i],
                    frame_at(samples@, RMS_LANES as nat, i),
                    accs[i + 1],
                ),
        decreases rest@.len(),
    {
        let (chunk, tail) = rest.split_at(RMS_LANES);
        let ghost before = accs;
        acc = accumulate(acc, chunk);
        proof {
            assert(chunk@ =~= frame_at(samples@, RMS_LANES as nat, k as int));
            assert(accumulated_chunk(accumulate, before.last(), chunk@, acc));
            accs = before.push(acc);
            assert forall|i: int| 0 <= i < k + 1 implies #[trigger] accumulated_chunk(
                accumulate,
                accs[i],
                frame_at(samples@, RMS_LANES as nat, i),
                accs[i + 1],
            ) by {
                if i < k {
                    assert(accs[i] == before[i] && accs[i + 1] == before[i + 1]);
                }
            }
            assert(tail@ =~= samples@.skip(((k + 1) * RMS_LANES) as int));
            k = k + 1;
        }
        rest = tail;
    }
    proof {
        frame_count_is(samples@.len(), RMS_LANES as nat, k);
        assert(rest@ =~= frame_rest(samples@, RMS_LANES as nat));
        let chunks = frames(samples@, RMS_LANES as nat);
        assert forall|i: int| 0 <= i < chunks.len() implies #[trigger] accumulated_chunk(
            accumulate,
            accs[i],
            chunks[i],
            accs[i + 1],
        ) by {
            assert(chunks[i] == frame_at(samples@, RMS_LANES as nat, i));
        }
        assert(accumulated(accumulate, empty, chunks, accs));
    }
    let sum: T = horizontal(acc);
    let total: T = sum_squares(sum, rest, &add_square);
    finish(total, n)
}

/// The sum of the squares of samples.
pub open spec fn squares(samples: Seq<i16>) -> int
    decreases samples.len(),
{
    if samples.len() == 0 {
        0
    } else {
        squares(samples.drop_last()) + samples.last() * samples.last()
    }
}

/// The squares of two runs, one behind the other, add up.
pub proof fn squares_add(a: Seq<i16>, b: Seq<i16>)
    ensures
        squares(a + b) == squares(a) + squares(b),
    decreases b.len(),
{
    if b.len() == 0 {
        assert(a + b =~= a);
    } else {
        squares_add(a, b.drop_last());
        assert((a + b).drop_last() =~= a + b.drop_last());
    }
}

/// Adding the squares one by one adds the square of every sample once. `worth` is what a sum is worth.
proof fn summed_counts_every_sample<T, Q>(
    add_square: Q,
    start: T,
    samples: Seq<i16>,
    sums: Seq<T>,
    worth: spec_fn(T) -> int,
)
    where
        Q: Fn(T, i16) -> T,
    requires
        summed(add_square, start, samples, sums),
        forall|t: T, s: i16, u: T| #[trigger]
            add_square.ensures((t, s), u) ==> worth(u) == worth(t) + s * s,
    ensures
        worth(sums.last()) == worth(start) + squares(samples),
    decreases samples.len(),
{
    if samples.len() > 0 {
        let n = samples.len() - 1;
        assert(add_square.ensures((sums[n], samples[n]), sums[n + 1]));
        let before = sums.drop_last();
        assert forall|i: int| 0 <= i < n implies #[trigger] add_square.ensures(
            (before[i], samples.drop_last()[i]),
            before[i + 1],
        ) by {
            assert(add_square.ensures((sums[i], samples[i]), sums[i + 1]));
        }
        summed_counts_every_sample(add_square, start, samples.drop_last(), before, worth);
    }
}

/// Accumulating eight at a time adds the square of every sample of the chunks once.
proof fn accumulated_counts_every_sample<V, A>(
    accumulate: A,
    start: V,
    chunks: Seq<Seq<i16>>,
    accs: Seq<V>,
    worth: spec_fn(V) -> int,
)
    where
        A: Fn(V, &[i16]) -> V,
    requires
        accumulated(accumulate, start, chunks, accs),
        forall|v: V, c: &[i16], u: V| #[trigger]
            accumulate.ensures((v, c), u) ==> worth(u) == worth(v) + squares(c@),
    ensures
        worth(accs.last()) == worth(start) + squares(joined(chunks)),
    decreases chunks.len(),
{
    if chunks.len() > 0 {
        let n = chunks.len() - 1;
        assert(accumulated_chunk(accumulate, accs[n], chunks[n], accs[n + 1]));
        let before = accs.drop_last();
        assert forall|i: int| 0 <= i < n implies #[trigger] accumulated_chunk(
            accumulate,
            before[i],
            chunks.drop_last()[i],
            before[i + 1],
        ) by {
            assert(accumulated_chunk(accumulate, accs[i], chunks[i], accs[i + 1]));
        }
        accumulated_counts_every_sample(accumulate, start, chunks.drop_last(), before, worth);
        assert(chunks.drop_last().push(chunks.last()) =~= chunks);
        joined_push(chunks.drop_last(), chunks.last());
        squares_add(joined(chunks.drop_last()), chunks.last());
    }
}

/// The level is made of the square of every sample, each counted once, whether samples are taken one by
/// one or eight at a time with the rest behind. `acc_worth` and `worth` are what an accumulator and a sum
/// are worth; of the arithmetic it is taken that it adds squares.
pub proof fn level_counts_every_sample_once<T, V, A, H, Q>(
    samples: Seq<i16>,
    zero: T,
    empty: V,
    accumulate: A,
    horizontal: H,
    add_square: Q,
    accs: Seq<V>,
    sum: T,
    wide: Seq<T>,
    narrow: Seq<T>,
    acc_worth: spec_fn(V) -> int,
    worth: spec_fn(T) -> int,
)
    where
        A: Fn(V, &[i16]) -> V,
        H: Fn(V) -> T,
        Q: Fn(T, i16) -> T,
    requires
        summed(add_square, zero, samples, narrow),
        accumulated(accumulate, empty, frames(samples, RMS_LANES as nat), accs),
        horizontal.ensures((accs.last(),), sum),
        summed(add_square, sum, frame_rest(samples, RMS_LANES as nat), wide),
        worth(zero) == 0,
        acc_worth(empty) == 0,
        forall|v: V, c: &[i16], u: V| #[trigger]
            accumulate.ensures((v, c), u) ==> acc_worth(u) == acc_worth(v) + squares(c@),
        forall|v: V, t: T| #[trigger] horizontal.ensures((v,), t) ==> worth(t) == acc_worth(v),
        forall|t: T, s: i16, u: T| #[trigger]
            add_square.ensures((t, s), u) ==> worth(u) == worth(t) + s * s,
    ensures
        worth(narrow.last()) == squares(samples),
        worth(wide.last()) == squares(samples),
{
    let lanes = RMS_LANES as nat;
    summed_counts_every_sample(add_square, zero, samples, narrow, worth);
    accumulated_counts_every_sample(accumulate, empty, frames(samples, lanes), accs, acc_worth);
    summed_counts_every_sample(add_square, sum, frame_rest(samples, lanes), wide, worth);
    frames_cover(samples, lanes);
    squares_add(joined(frames(samples, lanes)), frame_rest(samples, lanes));
}

/// The squares are added in order: each eight samples, and each sample of the rest, go to the sum that
/// those before them have made, the first to the one it starts with.
pub proof fn squares_are_added_in_order<T, V, A, Q>(
    samples: Seq<i16>,
    start: V,
    sum: T,
    accumulate: A,
    add_square: Q,
    accs: Seq<V>,
    sums: Seq<T>,
    i: int,
)
    where
        A: Fn(V, &[i16]) -> V,
        Q: Fn(T, i16) -> T,
    requires
        accumulated(accumulate, start, frames(samples, RMS_LANES as nat), accs),
        summed(add_square, sum, samples, sums),
    ensures
        accs.len() == samples.len() / 8 + 1,
        accs[0] == start,
        0 <= i < samples.len() / 8 ==> exists|c: &[i16]| #[trigger]
            accumulate.ensures((accs[i], c), accs[i + 1]) && c@ == samples.subrange(
                i * 8,
                i * 8 + 8,
            ),
        sums.len() == samples.len() + 1,
        sums[0] == sum,
        0 <= i < samples.len() ==> add_square.ensures((sums[i], samples[i]), sums[i + 1]),
{
    frames_are_cut_in_order(samples, 8);
    let chunks = frames(samples, 8);
    if 0 <= i < samples.len() / 8 {
        assert(accumulated_chunk(accumulate, accs[i], chunks[i], accs[i + 1]));
        let c = choose|c: &[i16]|
            c@ == chunks[i] && #[trigger] accumulate.ensures((accs[i], c), accs[i + 1]);
        assert(chunks[i] =~= samples.subrange(i * 8, i * 8 + 8)) by {
            assert forall|j: int| 0 <= j < 8 implies chunks[i][j] == samples.subrange(
                i * 8,
                i * 8 + 8,
            )[j] by {
                assert(chunks[i][j] == samples[i * 8 + j]);
            }
        }
        assert(accumulate.ensures((accs[i], c), accs[i + 1]));
    }
}

/// Whether the gain moves from `before` to `after` over one frame. An empty frame and a quiet one hold
/// it. Any other moves it by `attack` where `desired` asks for more than it is, which `rising` says,
/// and by `release` where it does not.
pub open spec fn gain_moves<G, L, Q, D, U, A, R>(
    level: L,
    quiet: Q,
    desired: D,
    rising: U,
    attack: A,
    release: R,
    target: G,
    ceiling: G,
    frame: Seq<i16>,
    before: G,
    after: G,
) -> bool
    where
        L: Fn(&[i16]) -> G,
        Q: Fn(G) -> bool,
        D: Fn(G, G, G) -> G,
        U: Fn(G, G) -> bool,
        A: Fn(G, G) -> G,
        R: Fn(G, G) -> G,
{
    if frame.len() == 0 {
        after == before
    } else {
        exists|s: &[i16], lvl: G, hush: bool|
            s@ == frame && #[trigger] level.ensures((s,), lvl) && #[trigger] quiet.ensures(
                (lvl,),
                hush,
            ) && if hush {
                after == before
            } else {
                exists|d: G, up: bool|
                    #[trigger] desired.ensures((target, lvl, ceiling), d) && #[trigger]
                        rising.ensures(
                        (d, before),
                        up,
                    ) && if up {
                        attack.ensures((before, d), after)
                    } else {
                        release.ensures((before, d), after)
                    }
            }
    }
}

/// What a frame does to the gain. The level of the whole frame is measured, and a quiet frame leaves the
/// gain as it is. For any other the gain that is asked for is made of the target, that level and the
/// ceiling. Where it is above the gain as it stands the gain attacks towards it, and where it is not the
/// gain releases towards it. An empty frame does nothing.
pub proof fn gain_attacks_up_and_releases_down<G, L, Q, D, U, A, R>(
    level: L,
    quiet: Q,
    desired: D,
    rising: U,
    attack: A,
    release: R,
    target: G,
    ceiling: G,
    frame: Seq<i16>,
    before: G,
    after: G,
)
    where
        L: Fn(&[i16]) -> G,
        Q: Fn(G) -> bool,
        D: Fn(G, G, G) -> G,
        U: Fn(G, G) -> bool,
        A: Fn(G, G) -> G,
        R: Fn(G, G) -> G,
    requires
        gain_moves(
            level,
            quiet,
            desired,
            rising,
            attack,
            release,
            target,
            ceiling,
            frame,
            before,
            after,
        ),
    ensures
        frame.len() == 0 ==> after == before,
        frame.len() > 0 ==> exists|s: &[i16], lvl: G, hush: bool|
            {
                &&& s@ == frame
                &&& #[trigger] level.ensures((s,), lvl)
                &&& #[trigger] quiet.ensures((lvl,), hush)
                &&& hush ==> after == before
                &&& !hush ==> exists|d: G, up: bool|
                    {
                        &&& #[trigger] desired.ensures((target, lvl, ceiling), d)
                        &&& #[trigger] rising.ensures((d, before), up)
                        &&& up ==> attack.ensures((before, d), after)
                        &&& !up ==> release.ensures((before, d), after)
                    }
            },
{
}

/// A frame for which no higher gain is asked for never attacks: the gain is released towards one that
/// was asked for. A frame for which only a higher one is asked for never releases: the gain attacks.
pub proof fn loud_frames_release_and_faint_ones_attack<G, L, Q, D, U, A, R>(
    level: L,
    quiet: Q,
    desired: D,
    rising: U,
    attack: A,
    release: R,
    target: G,
    ceiling: G,
    frame: Seq<i16>,
    before: G,
    after: G,
)
    where
        L: Fn(&[i16]) -> G,
        Q: Fn(G) -> bool,
        D: Fn(G, G, G) -> G,
        U: Fn(G, G) -> bool,
        A: Fn(G, G) -> G,
        R: Fn(G, G) -> G,
    requires
        frame.len() > 0,
        gain_moves(
            level,
            quiet,
            desired,
            rising,
            attack,
            release,
            target,
            ceiling,
            frame,
            before,
            after,
        ),
        forall|s: &[i16], lvl: G|
            s@ == frame && #[trigger] level.ensures((s,), lvl) ==> !quiet.ensures((lvl,), true),
    ensures
        (forall|d: G| !(#[trigger] rising.ensures((d, before), true))) ==> exists|d: G| #[trigger]
            release.ensures((before, d), after),
        (forall|d: G| !(#[trigger] rising.ensures((d, before), false))) ==> exists|d: G| #[trigger]
            attack.ensures((before, d), after),
{
}

/// Quiet frames hold the gain, however many come in a row. `gains` are the gains before, between and
/// after the frames.
pub proof fn quiet_frames_hold_the_gain<G, L, Q, D, U, A, R>(
    level: L,
    quiet: Q,
    desired: D,
    rising: U,
    attack: A,
    release: R,
    target: G,
    ceiling: G,
    run: Seq<Seq<i16>>,
    gains: Seq<G>,
)
    where
        L: Fn(&[i16]) -> G,
        Q: Fn(G) -> bool,
        D: Fn(G, G, G) -> G,
        U: Fn(G, G) -> bool,
        A: Fn(G, G) -> G,
        R: Fn(G, G) -> G,
    requires
        gains.len() == run.len() + 1,
        forall|i: int|
            0 <= i < run.len() ==> #[trigger] gain_moves(
                level,
                quiet,
                desired,
                rising,
                attack,
                release,
                target,
                ceiling,
                run[i],
                gains[i],
                gains[i + 1],
            ),
        forall|i: int, s: &[i16], lvl: G|
            0 <= i < run.len() && s@ == #[trigger] run[i] && #[trigger] level.ensures((s,), lvl)
                ==> !quiet.ensures((lvl,), false),
    ensures
        forall|i: int| 0 <= i < gains.len() ==> #[trigger] gains[i] == gains[0],
    decreases run.len(),
{
    if run.len() > 0 {
        let n = run.len() - 1;
        assert forall|i: int| 0 <= i < n implies #[trigger] gain_moves(
            level,
            quiet,
            desired,
            rising,
            attack,
            release,
            target,
            ceiling,
            run.drop_last()[i],
            gains.drop_last()[i],
            gains.drop_last()[i + 1],
        ) by {
            assert(gain_moves(
                level,
                quiet,
                desired,
                rising,
                attack,
                release,
                target,
                ceiling,
                run[i],
                gains[i],
                gains[i + 1],
            ));
        }
        assert forall|i: int, s: &[i16], lvl: G|
            0 <= i < n && s@ == #[trigger] run.drop_last()[i] && #[trigger] level.ensures(
                (s,),
                lvl,
            ) implies !quiet.ensures((lvl,), false) by {
            assert(s@ == run[i]);
        }
        quiet_frames_hold_the_gain(
            level,
            quiet,
            desired,
            rising,
            attack,
            release,
            target,
            ceiling,
            run.drop_last(),
            gains.drop_last(),
        );
        assert(gain_moves(
            level,
            quiet,
            desired,
            rising,
            attack,
            release,
            target,
            ceiling,
            run[n],
            gains[n],
            gains[n + 1],
        ));
        assert(run[n] == run.last());
        assert(gains[n + 1] == gains[n]);
        assert(gains.drop_last()[n] == gains.drop_last()[0]);
        assert forall|i: int| 0 <= i < gains.len() implies #[trigger] gains[i] == gains[0] by {
            if i < n {
                assert(gains.drop_last()[i] == gains.drop_last()[0]);
            }
        }
    }
}

/// Whether the gain moves from `before` to `after` in one step: over a frame, or by a reset, which
/// `None` stands for.
pub open spec fn gain_steps<G, L, Q, D, U, A, R>(
    level: L,
    quiet: Q,
    desired: D,
    rising: U,
    attack: A,
    release: R,
    target: G,
    ceiling: G,
    unity: G,
    step: Option<Seq<i16>>,
    before: G,
    after: G,
) -> bool
    where
        L: Fn(&[i16]) -> G,
        Q: Fn(G) -> bool,
        D: Fn(G, G, G) -> G,
        U: Fn(G, G) -> bool,
        A: Fn(G, G) -> G,
        R: Fn(G, G) -> G,
{
    match step {
        Some(frame) => gain_moves(
            level,
            quiet,
            desired,
            rising,
            attack,
            release,
            target,
            ceiling,
            frame,
            before,
            after,
        ),
        None => after == unity,
    }
}

/// Whatever holds of the unity gain, and goes on to hold of a gain when it attacks and when it releases,
/// holds after every run of frames and resets.
pub proof fn gain_keeps_its_bounds<G, L, Q, D, U, A, R>(
    level: L,
    quiet: Q,
    desired: D,
    rising: U,
    attack: A,
    release: R,
    target: G,
    ceiling: G,
    unity: G,
    run: Seq<Option<Seq<i16>>>,
    gains: Seq<G>,
    bounded: spec_fn(G) -> bool,
)
    where
        L: Fn(&[i16]) -> G,
        Q: Fn(G) -> bool,
        D: Fn(G, G, G) -> G,
        U: Fn(G, G) -> bool,
        A: Fn(G, G) -> G,
        R: Fn(G, G) -> G,
    requires
        gains.len() == run.len() + 1,
        gains[0] == unity,
        forall|i: int|
            0 <= i < run.len() ==> #[trigger] gain_steps(
                level,
                quiet,
                desired,
                rising,
                attack,
                release,
                target,
                ceiling,
                unity,
                run[i],
                gains[i],
                gains[i + 1],
            ),
        bounded(unity),
        forall|g: G, lvl: G, d: G, h: G| #[trigger]
            desired.ensures((target, lvl, ceiling), d) && bounded(g) && #[trigger] attack.ensures(
                (g, d),
                h,
            ) ==> bounded(h),
        forall|g: G, lvl: G, d: G, h: G| #[trigger]
            desired.ensures((target, lvl, ceiling), d) && bounded(g) && #[trigger] release.ensures(
                (g, d),
                h,
            ) ==> bounded(h),
    ensures
        forall|i: int| 0 <= i < gains.len() ==> bounded(#[trigger] gains[i]),
    decreases run.len(),
{
    if run.len() > 0 {
        let n = run.len() - 1;
        let run_before = run.drop_last();
        let gains_before = gains.drop_last();
        assert forall|i: int| 0 <= i < n implies #[trigger] gain_steps(
            level,
            quiet,
            desired,
            rising,
            attack,
            release,
            target,
            ceiling,
            unity,
            run_before[i],
            gains_before[i],
            gains_before[i + 1],
        ) by {
            assert(gain_steps(
                level,
                quiet,
                desired,
                rising,
                attack,
                release,
                target,
                ceiling,
                unity,
                run[i],
                gains[i],
                gains[i + 1],
            ));
        }
        gain_keeps_its_bounds(
            level,
            quiet,
            desired,
            rising,
            attack,
            release,
            target,
            ceiling,
            unity,
            run_before,
            gains_before,
            bounded,
        );
        assert(gain_steps(
            level,
            quiet,
            desired,
            rising,
            attack,
            release,
            target,
            ceiling,
            unity,
            run[n],
            gains[n],
            gains[n + 1],
        ));
        assert(bounded(gains_before[n]));
        assert forall|i: int| 0 <= i < gains.len() implies bounded(#[trigger] gains[i]) by {
            if i <= n {
                assert(bounded(gains_before[i]));
            }
        }
    }
}

/// Whether `h` lies between `g` and `d` in the order `le`, or is one of them.
pub open spec fn on_the_way<G>(le: spec_fn(G, G) -> bool, g: G, d: G, h: G) -> bool {
    (le(g, h) && le(h, d)) || (le(d, h) && le(h, g))
}

/// Whether `le` orders gains: any two compare, and comparing goes on from one to the next.
pub open spec fn is_order<G>(le: spec_fn(G, G) -> bool) -> bool {
    &&& forall|a: G, b: G| #[trigger] le(a, b) || le(b, a)
    &&& forall|a: G, b: G, c: G| #[trigger] le(a, b) && #[trigger] le(b, c) ==> le(a, c)
}

/// The gain never falls below zero and never rises above the ceiling, or above unity where that is the
/// higher, after any run of frames and resets. A frame that is not quiet leaves it on the way from where
/// it was to the gain that was asked for.
///
/// `le` is the order of gains. Of the arithmetic only this is taken: the gain that is asked for is
/// clamped to between zero and the ceiling, and an attack and a release each go some part of the way.
pub proof fn gain_stays_in_bounds<G, L, Q, D, U, A, R>(
    level: L,
    quiet: Q,
    desired: D,
    rising: U,
    attack: A,
    release: R,
    target: G,
    ceiling: G,
    unity: G,
    zero: G,
    le: spec_fn(G, G) -> bool,
    run: Seq<Option<Seq<i16>>>,
    gains: Seq<G>,
)
    where
        L: Fn(&[i16]) -> G,
        Q: Fn(G) -> bool,
        D: Fn(G, G, G) -> G,
        U: Fn(G, G) -> bool,
        A: Fn(G, G) -> G,
        R: Fn(G, G) -> G,
    requires
        gains.len() == run.len() + 1,
        gains[0] == unity,
        forall|i: int|
            0 <= i < run.len() ==> #[trigger] gain_steps(
                level,
                quiet,
                desired,
                rising,
                attack,
                release,
                target,
                ceiling,
                unity,
                run[i],
                gains[i],
                gains[i + 1],
            ),
        is_order(le),
        le(zero, unity),
        forall|lvl: G, d: G| #[trigger]
            desired.ensures((target, lvl, ceiling), d) ==> le(zero, d) && le(d, ceiling),
        forall|g: G, d: G, h: G| #[trigger] attack.ensures((g, d), h) ==> on_the_way(le, g, d, h),
        forall|g: G, d: G, h: G| #[trigger] release.ensures((g, d), h) ==> on_the_way(le, g, d, h),
    ensures
        forall|i: int|
            0 <= i < gains.len() ==> le(zero, #[trigger] gains[i]) && (le(gains[i], unity) || le(
                gains[i],
                ceiling,
            )),
        forall|i: int|
            0 <= i < run.len() ==> match #[trigger] run[i] {
                None => gains[i + 1] == unity,
                Some(_) => gains[i + 1] == gains[i] || exists|lvl: G, d: G| #[trigger]
                    desired.ensures((target, lvl, ceiling), d) && on_the_way(
                        le,
                        gains[i],
                        d,
                        gains[i + 1],
                    ),
            },
{
    let bounded = |g: G| le(zero, g) && (le(g, unity) || le(g, ceiling));
    assert(le(unity, unity));
    assert forall|g: G, lvl: G, d: G, h: G| #[trigger]
        desired.ensures((target, lvl, ceiling), d) && bounded(g) && #[trigger] attack.ensures(
            (g, d),
            h,
        ) implies bounded(h) by {
        assert(on_the_way(le, g, d, h));
        bounds_on_the_way(le, zero, unity, ceiling, g, d, h);
    }
    assert forall|g: G, lvl: G, d: G, h: G| #[trigger]
        desired.ensures((target, lvl, ceiling), d) && bounded(g) && #[trigger] release.ensures(
            (g, d),
            h,
        ) implies bounded(h) by {
        assert(on_the_way(le, g, d, h));
        bounds_on_the_way(le, zero, unity, ceiling, g, d, h);
    }
    gain_keeps_its_bounds(
        level,
        quiet,
        desired,
        rising,
        attack,
        release,
        target,
        ceiling,
        unity,
        run,
        gains,
        bounded,
    );
    assert forall|i: int| 0 <= i < gains.len() implies le(zero, #[trigger] gains[i]) && (le(
        gains[i],
        unity,
    ) || le(gains[i], ceiling)) by {
        assert(bounded(gains[i]));
    }
    assert forall|i: int| 0 <= i < run.len() implies match #[trigger] run[i] {
        None => gains[i + 1] == unity,
        Some(_) => gains[i + 1] == gains[i] || exists|lvl: G, d: G| #[trigger]
            desired.ensures((target, lvl, ceiling), d) && on_the_way(le, gains[i], d, gains[i + 1]),
    } by {
        assert(gain_steps(
            level,
            quiet,
            desired,
            rising,
            attack,
            release,
            target,
            ceiling,
            unity,
            run[i],
            gains[i],
            gains[i + 1],
        ));
    }
}

/// What lies on the way between two gains that are in bounds is in bounds.
proof fn bounds_on_the_way<G>(
    le: spec_fn(G, G) -> bool,
    zero: G,
    unity: G,
    ceiling: G,
    g: G,
    d: G,
    h: G,
)
    requires
        is_order(le),
        le(zero, g),
        le(g, unity) || le(g, ceiling),
        le(zero, d),
        le(d, ceiling),
        on_the_way(le, g, d, h),
    ensures
        le(zero, h),
        le(h, unity) || le(h, ceiling),
{
}

/// An automatic gain control that drives the level of each frame towards a target. `G` is the
/// floating point type of levels and gains.
#[derive(Debug, Clone, Copy)]
pub struct Agc<G> {
    /// The level that is aimed at.
    pub target_rms: G,
    /// The most gain that is given.
    pub max_gain: G,
    gain: G,
}

impl<G: Copy> Agc<G> {
    /// The level that is aimed at.
    pub closed spec fn target(&self) -> G {
        self.target_rms
    }

    /// The most gain that is given.
    pub closed spec fn ceiling(&self) -> G {
        self.max_gain
    }

    /// The gain as it stands.
    pub closed spec fn current(&self) -> G {
        self.gain
    }

    /// A control with unity gain.
    pub fn new(target_rms: G, max_gain: G, unity: G) -> (r: Agc<G>)
        ensures
            r.target() == target_rms,
            r.ceiling() == max_gain,
            r.current() == unity,
    {
        Agc { target_rms, max_gain, gain: unity }
    }

    /// Applies the gain to a frame in place; nothing is done for an empty one.
    ///
    /// `level` measures the frame. While it is quiet the gain is held, so that silence cannot drive
    /// it up. Else it moves towards the gain that `desired` asks for: by `attack` where that is
    /// more than the gain as it stands, which `rising` says, and by `release` where it is not. Every
    /// sample is then scaled by the new gain.
    pub fn process<L, Q, D, U, A, R, S>(
        &mut self,
        pcm: &mut [i16],
        level: L,
        quiet: Q,
        desired: D,
        rising: U,
        attack: A,
        release: R,
        scale: S,
    )
        where
            L: Fn(&[i16]) -> G,
            Q: Fn(G) -> bool,
            D: Fn(G, G, G) -> G,
            U: Fn(G, G) -> bool,
            A: Fn(G, G) -> G,
            R: Fn(G, G) -> G,
            S: Fn(i16, G) -> i16,
        requires
            forall|s: &[i16]| s@.len() > 0 ==> level.requires((s,)),
            forall|a: G| quiet.requires((a,)),
            forall|a: G, b: G, c: G| desired.requires((a, b, c)),
            forall|a: G, b: G| rising.requires((a, b)),
            forall|a: G, b: G| attack.requires((a, b)),
            forall|a: G, b: G| release.requires((a, b)),
            forall|s: i16, a: G| scale.requires((s, a)),
        ensures
            final(self).target() == old(self).target(),
            final(self).ceiling() == old(self).ceiling(),
            final(pcm)@.len() == old(pcm)@.len(),
            old(pcm)@.len() == 0 ==> final(self).current() == old(self).current(),
            old(pcm)@.len() > 0 ==> exists|s: &[i16], lvl: G, hush: bool|
                {
                    &&& s@ == old(pcm)@
                    &&& #[trigger] level.ensures((s,), lvl)
                    &&& #[trigger] quiet.ensures((lvl,), hush)
                    &&& hush ==> final(self).current() == old(self).current()
                    &&& !hush ==> exists|d: G, up: bool|
                        {
                            &&& #[trigger] desired.ensures(
                                (old(self).target(), lvl, old(self).ceiling()),
                                d,
                            )
                            &&& #[trigger] rising.ensures((d, old(self).current()), up)
                            &&& up ==> attack.ensures(
                                (old(self).current(), d),
                                final(self).current(),
                            )
                            &&& !up ==> release.ensures(
                                (old(self).current(), d),
                                final(self).current(),
                            )
                        }
                },
            gain_moves(
                level,
                quiet,
                desired,
                rising,
                attack,
                release,
                old(self).target(),
                old(self).ceiling(),
                old(pcm)@,
                old(self).current(),
                final(self).current(),
            ),
            forall|i: int|
                0 <= i < old(pcm)@.len() ==> #[trigger] scale.ensures(
                    (old(pcm)@[i], final(self).current()),
                    final(pcm)@[i],
                ),
    {
        if pcm.len() == 0 {
            return;
        }
        let lvl: G = level(&*pcm);
        if !quiet(lvl) {
            let d: G = desired(self.target_rms, lvl, self.max_gain);
            self.gain = if rising(d, self.gain) {
                attack(self.gain, d)
            } else {
                release(self.gain, d)
            };
        }
        let gain: G = self.gain;
        let ghost start = pcm@;
        let mut i: usize = 0;
        while i < pcm.len()
            invariant
                i <= pcm@.len(),
                pcm@.len() == start.len(),
                forall|s: i16, a: G| scale.requires((s, a)),
                forall|j: int|
                    0 <= j < i ==> #[trigger] scale.ensures((start[j], gain), pcm@[j]),
                forall|j: int| i <= j < start.len() ==> pcm@[j] == start[j],
            decreases pcm@.len() - i,
        {
            let s: i16 = scale(pcm[i], gain);
            pcm[i] = s;
            i = i + 1;
        }
        proof {
            gain_attacks_up_and_releases_down(
                level,
                quiet,
                desired,
                rising,
                attack,
                release,
                old(self).target(),
                old(self).ceiling(),
                start,
                old(self).current(),
                gain,
            );
        }
    }

    /// The gain as it stands.
    pub fn gain(&self) -> (r: G)
        ensures
            r == self.current(),
    {
        self.gain
    }

    /// Sets the gain back.
    pub fn reset(&mut self, unity: G)
        ensures
            final(self).target() == old(self).target(),
            final(self).ceiling() == old(self).ceiling(),
            final(self).current() == unity,
    {
        self.gain = unity;
    }
}

} // verus!
