//! Cutting a stream of samples into frames of equal length.
//!
//! A stage that works on whole frames keeps what does not fill one for the next call. The spec
//! functions here say which frames a call hands on and what it keeps.

use vstd::arithmetic::div_mod::{lemma_fundamental_div_mod, lemma_mod_bound};
use vstd::prelude::*;

verus! {

/// The number of whole frames in `len` samples.
pub open spec fn frame_count(len: nat, frame: nat) -> nat {
    len / frame
}

/// The `i`-th frame of a run of samples.
pub open spec fn frame_at<S>(samples: Seq<S>, frame: nat, i: int) -> Seq<S> {
    samples.subrange(i * frame, i * frame + frame)
}

/// What is left of a run of samples behind its last whole frame.
pub open spec fn frame_rest<S>(samples: Seq<S>, frame: nat) -> Seq<S> {
    samples.skip((frame_count(samples.len(), frame) * frame) as int)
}

/// The runs of a list, one behind the other.
pub open spec fn joined<S>(runs: Seq<Seq<S>>) -> Seq<S>
    decreases runs.len(),
{
    if runs.len() == 0 {
        Seq::empty()
    } else {
        joined(runs.drop_last()) + runs.last()
    }
}

/// The frames of a run of samples, in order.
pub open spec fn frames<S>(samples: Seq<S>, frame: nat) -> Seq<Seq<S>> {
    Seq::new(frame_count(samples.len(), frame), |i: int| frame_at(samples, frame, i))
}

/// Whole frames lie within the samples that they are cut from.
pub proof fn frame_bounds(len: nat, frame: nat, i: int)
    requires
        frame > 0,
        0 <= i < frame_count(len, frame),
    ensures
        0 <= i * frame,
        i * frame + frame <= len,
        i * frame + frame == (i + 1) * frame,
{
    lemma_fundamental_div_mod(len as int, frame as int);
    lemma_mod_bound(len as int, frame as int);
    let k = frame_count(len, frame) as int;
    assert(i * frame + frame == (i + 1) * frame) by (nonlinear_arith);
    assert((i + 1) * frame <= k * frame) by (nonlinear_arith)
        requires
            i + 1 <= k,
            frame > 0,
    ;
    assert(k * frame <= len) by (nonlinear_arith)
        requires
            len == frame * k + len % frame,
            0 <= len % frame,
    ;
    assert(0 <= i * frame) by (nonlinear_arith)
        requires
            0 <= i,
            frame > 0,
    ;
}

/// The samples that fill whole frames, and what is left of them.
pub proof fn frame_split(len: nat, frame: nat)
    requires
        frame > 0,
    ensures
        frame_count(len, frame) * frame <= len,
        len - frame_count(len, frame) * frame < frame,
{
    lemma_fundamental_div_mod(len as int, frame as int);
    lemma_mod_bound(len as int, frame as int);
    let k = frame_count(len, frame) as int;
    assert(k * frame == frame * k) by (nonlinear_arith);
}

/// A number of whole frames that leaves less than a frame is the number of frames.
pub proof fn frame_count_is(len: nat, frame: nat, k: nat)
    requires
        frame > 0,
        k * frame <= len,
        len - k * frame < frame,
    ensures
        frame_count(len, frame) == k,
{
    vstd::arithmetic::div_mod::lemma_fundamental_div_mod_converse(
        len as int,
        frame as int,
        k as int,
        len - k * frame,
    );
}

/// No sample is lost or doubled: the frames and the rest are the samples, and the rest is shorter
/// than a frame.
pub proof fn frames_cover<S>(samples: Seq<S>, frame: nat)
    requires
        frame > 0,
    ensures
        joined(frames(samples, frame)) + frame_rest(samples, frame) == samples,
        frame_rest(samples, frame).len() < frame,
        joined(frames(samples, frame)).len() == frame_count(samples.len(), frame) * frame,
{
    frame_split(samples.len(), frame);
    joined_frames(samples, frame, frame_count(samples.len(), frame));
    let all = frames(samples, frame);
    assert(all.take(all.len() as int) =~= all);
    let n = (frame_count(samples.len(), frame) * frame) as int;
    assert(samples.take(n) + samples.skip(n) =~= samples);
}

/// The first `k` frames, joined, are the first `k` frames' worth of samples.
proof fn joined_frames<S>(samples: Seq<S>, frame: nat, k: nat)
    requires
        frame > 0,
        k <= frame_count(samples.len(), frame),
    ensures
        k * frame <= samples.len(),
        joined(frames(samples, frame).take(k as int)) == samples.take((k * frame) as int),
    decreases k,
{
    let all = frames(samples, frame);
    if k == 0 {
        assert(k * frame == 0) by (nonlinear_arith)
            requires
                k == 0,
        ;
        assert(all.take(0) =~= Seq::<Seq<S>>::empty());
        assert(samples.take(0) =~= Seq::<S>::empty());
    } else {
        let p = (k - 1) as nat;
        joined_frames(samples, frame, p);
        frame_bounds(samples.len(), frame, p as int);
        assert(all.take(k as int).drop_last() =~= all.take(p as int));
        assert(all.take(k as int).last() == frame_at(samples, frame, p as int));
        assert(samples.take((k * frame) as int) =~= samples.take((p * frame) as int) + frame_at(
            samples,
            frame,
            p as int,
        ));
    }
}

/// Where a stream is cut into calls is of no account: the frames of the first call, followed by
/// the frames of the second, which starts with the first one's rest, are the frames of both
/// inputs in one, and the rest is the same.
pub proof fn frames_ignore_calls<S>(first: Seq<S>, second: Seq<S>, frame: nat)
    requires
        frame > 0,
    ensures
        frames(first, frame) + frames(frame_rest(first, frame) + second, frame) == frames(
            first + second,
            frame,
        ),
        frame_rest(frame_rest(first, frame) + second, frame) == frame_rest(first + second, frame),
{
    let k1 = frame_count(first.len(), frame);
    let carried = frame_rest(first, frame) + second;
    let k2 = frame_count(carried.len(), frame);
    let all = first + second;
    frame_split(first.len(), frame);
    frame_split(carried.len(), frame);
    let cut = (k1 * frame) as int;
    assert(carried =~= all.skip(cut));
    assert((k1 + k2) * frame == k1 * frame + k2 * frame) by (nonlinear_arith);
    frame_count_is(all.len(), frame, k1 + k2);
    assert forall|i: int| 0 <= i < k1 + k2 implies (frames(first, frame) + frames(carried, frame))[i]
        == frames(all, frame)[i] by {
        frame_bounds(all.len(), frame, i);
        if i < k1 {
            frame_bounds(first.len(), frame, i);
            assert(frame_at(first, frame, i) =~= frame_at(all, frame, i));
        } else {
            let j = i - k1;
            frame_bounds(carried.len(), frame, j);
            assert(j * frame + k1 * frame == i * frame) by (nonlinear_arith)
                requires
                    j == i - k1,
            ;
            assert(frame_at(carried, frame, j) =~= frame_at(all, frame, i));
        }
    }
    assert(frames(first, frame) + frames(carried, frame) =~= frames(all, frame));
    assert(frame_rest(carried, frame) =~= frame_rest(all, frame));
}

/// Joining one more run appends it.
pub proof fn joined_push<S>(runs: Seq<Seq<S>>, run: Seq<S>)
    ensures
        joined(runs.push(run)) == joined(runs) + run,
{
    assert(runs.push(run).drop_last() =~= runs);
}

/// Joining two lists of runs is joining each and putting one behind the other.
pub proof fn joined_concat<S>(first: Seq<Seq<S>>, second: Seq<Seq<S>>)
    ensures
        joined(first + second) == joined(first) + joined(second),
    decreases second.len(),
{
    if second.len() == 0 {
        assert(first + second =~= first);
        assert(joined(first) + joined(second) =~= joined(first));
    } else {
        joined_concat(first, second.drop_last());
        assert((first + second).drop_last() =~= first + second.drop_last());
        assert(joined(first + second) =~= joined(first) + joined(second));
    }
}

/// Frames are cut in order and leave no gap: there are as many as fit, each is `frame` samples long, and
/// the `j`-th sample of the `i`-th frame is the sample `i * frame + j`. What is left over starts where the
/// last frame ends and goes on to the end.
pub proof fn frames_are_cut_in_order<S>(samples: Seq<S>, frame: nat)
    requires
        frame > 0,
    ensures
        frames(samples, frame).len() * frame <= samples.len(),
        samples.len() < (frames(samples, frame).len() + 1) * frame,
        forall|i: int| 0 <= i < frames(samples, frame).len() ==> (#[trigger] frames(
            samples,
            frame,
        )[i]).len() == frame,
        forall|i: int, j: int|
            0 <= i < frames(samples, frame).len() && 0 <= j < frame ==> #[trigger] frames(
                samples,
                frame,
            )[i][j] == samples[i * frame + j],
        frame_rest(samples, frame).len() == samples.len() - frames(samples, frame).len() * frame,
        forall|j: int|
            0 <= j < frame_rest(samples, frame).len() ==> #[trigger] frame_rest(samples, frame)[j]
                == samples[frames(samples, frame).len() * frame + j],
{
    frame_split(samples.len(), frame);
    let k = frames(samples, frame).len();
    assert((k + 1) * frame == k * frame + frame) by (nonlinear_arith);
    assert forall|i: int| 0 <= i < k implies (#[trigger] frames(samples, frame)[i]).len() == frame by {
        frame_bounds(samples.len(), frame, i);
    }
    assert forall|i: int, j: int| 0 <= i < k && 0 <= j < frame implies #[trigger] frames(
        samples,
        frame,
    )[i][j] == samples[i * frame + j] by {
        frame_bounds(samples.len(), frame, i);
    }
}

/// Joined runs stand one behind the other, in their order: nothing comes of none, and the `i`-th of runs
/// of equal length stands at `i` times that length.
pub proof fn joined_runs_keep_their_order<S>(runs: Seq<Seq<S>>, len: nat)
    requires
        forall|i: int| 0 <= i < runs.len() ==> (#[trigger] runs[i]).len() == len,
    ensures
        joined(Seq::<Seq<S>>::empty()) == Seq::<S>::empty(),
        joined(runs).len() == runs.len() * len,
        forall|i: int|
            0 <= i < runs.len() ==> #[trigger] runs[i] == joined(runs).subrange(
                i * len,
                i * len + len,
            ),
    decreases runs.len(),
{
    if runs.len() == 0 {
        assert(0 * len == 0) by (nonlinear_arith);
    } else {
        let rest = runs.drop_last();
        let k = rest.len();
        joined_runs_keep_their_order(rest, len);
        assert((k + 1) * len == k * len + len) by (nonlinear_arith);
        assert forall|i: int| 0 <= i < runs.len() implies #[trigger] runs[i] == joined(
            runs,
        ).subrange(i * len, i * len + len) by {
            if i < k {
                assert(rest[i] == runs[i]);
                assert(0 <= i * len && i * len + len <= k * len) by (nonlinear_arith)
                    requires
                        0 <= i,
                        i + 1 <= k,
                ;
                assert(joined(runs).subrange(i * len, i * len + len) =~= joined(rest).subrange(
                    i * len,
                    i * len + len,
                ));
            } else {
                assert(joined(runs).subrange(i * len, i * len + len) =~= runs.last());
            }
        }
    }
}

/// Appends a copy of `run` to `out`.
pub fn append_copy<S: Copy>(out: &mut Vec<S>, run: &[S])
    ensures
        final(out)@ == old(out)@ + run@,
{
    let ghost start = out@;
    let mut i: usize = 0;
    while i < run.len()
        invariant
            i <= run@.len(),
            out@ == start + run@.take(i as int),
        decreases run@.len() - i,
    {
        let s: S = run[i];
        out.push(s);
        i = i + 1;
        proof {
            assert(out@ =~= start + run@.take(i as int));
        }
    }
    proof {
        assert(run@.take(i as int) =~= run@);
    }
}

} // verus!
