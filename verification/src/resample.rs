//! Resampling, gain control and conversion of audio samples.
//!
//! [`Resample`] stands for a resampler of the core and [`Agc`] for its gain control.
//! [`StreamingResample`] converts a mono stream frame by frame: it interpolates where the rate is
//! raised by a whole factor, and hands everything else to the core's resampler.

use vstd::arithmetic::div_mod::{lemma_fundamental_div_mod, lemma_mod_bound};
use vstd::prelude::*;
use vstd::string::StringExecFns;
use crate::buffer::overwrite_head;
use crate::command::{c_safe, cstring, CText};
use crate::decimal::{
    append_decimal, append_signed, decimal, decimal_reads_as_the_number, number_read, signed_decimal,
};
use crate::framing::append_copy;
use crate::handle::{created, created_outcome, made_at, Address, At, Created, Handle, NULL};
use crate::logging::{log_line, log_warning, raw_level, LogLevel};
use crate::status::{
    generic_error, status_outcome, status_to_result, RawStatus, Result, SwitchError,
};

verus! {

/// The default quality of a resampler.
pub const DEFAULT_QUALITY: i32 = 2;

/// The least room, in samples, that a resampler is made with.
pub const MIN_OUTPUT_ROOM: u32 = 8192;

/// A length as a 32-bit count: as much of it as fits.
pub open spec fn capped(len: nat, max: nat) -> nat {
    if len < max {
        len
    } else {
        max
    }
}

/// A length as an unsigned 32-bit count.
fn count_u32(len: usize) -> (r: u32)
    ensures
        r == capped(len as nat, u32::MAX as nat),
{
    if len < u32::MAX as usize {
        len as u32
    } else {
        u32::MAX
    }
}

/// A length as a signed 32-bit count.
fn count_i32(len: usize) -> (r: i32)
    ensures
        r == capped(len as nat, i32::MAX as nat),
{
    if len < i32::MAX as usize {
        len as i32
    } else {
        i32::MAX
    }
}

/// Whether `n` is the room that `srclen` samples take at another rate: none where the source rate
/// is zero, else what `scale` makes of it.
pub open spec fn room_is<S>(scale: S, to_rate: u32, from_rate: u32, srclen: u32, n: u32) -> bool
    where
        S: FnOnce(u32, u32, u32) -> u32,
{
    if from_rate == 0 {
        n == 0
    } else {
        scale.ensures((to_rate, from_rate, srclen), n)
    }
}

/// The room that `srclen` samples take at another rate. `scale` multiplies by the ratio of the
/// rates; it is not asked where the source rate is zero.
pub fn calc_buffer_size<S>(to_rate: u32, from_rate: u32, srclen: u32, scale: S) -> (n: u32)
    where
        S: FnOnce(u32, u32, u32) -> u32,
    requires
        from_rate != 0 ==> scale.requires((to_rate, from_rate, srclen)),
    ensures
        room_is(scale, to_rate, from_rate, srclen, n),
{
    if from_rate == 0 {
        return 0;
    }
    scale(to_rate, from_rate, srclen)
}

/// A resampler of the core.
#[derive(Debug)]
pub struct Resample {
    raw: Handle,
    quality: i32,
    to_size: u32,
}

impl At for Resample {
    closed spec fn addr(&self) -> Address {
        self.raw.addr()
    }
}

/// What the core answers to a resampling: the output, or none where it has no output buffer, and
/// what it left at the head of the source.
#[derive(Debug)]
pub struct Resampled {
    pub output: Option<Vec<i16>>,
    pub source: Vec<i16>,
}

/// The samples of an answer.
pub open spec fn resampled_samples(reply: Resampled) -> Seq<i16> {
    match reply.output {
        Some(v) => v@,
        None => Seq::empty(),
    }
}

/// Whether `r` is the resampler that `create` made for these rates, with room for what 8192 samples
/// become and for no less than that number.
pub open spec fn resampler_made<S, C>(
    scale: S,
    create: C,
    from_rate: u32,
    to_rate: u32,
    channels: u32,
    quality: i32,
    r: Result<Resample>,
) -> bool
    where
        S: FnOnce(u32, u32, u32) -> u32,
        C: FnOnce(u32, u32, u32, i32, u32) -> Created,
{
    exists|n: u32, reply: Created|
        {
            &&& room_is(scale, to_rate, from_rate, MIN_OUTPUT_ROOM, n)
            &&& #[trigger] create.ensures((from_rate, to_rate, clamp_room(n), quality, channels),
                reply)
            &&& made_at(r, reply)
            &&& r matches Ok(x) ==> x.set_quality() == quality && x.asked_room() == clamp_room(n)
        }
}

/// Whether a resampler for these rates may be asked for: `scale` may be, and `create` with the room
/// that it gives.
pub open spec fn resampler_askable<S, C>(
    scale: S,
    create: C,
    from_rate: u32,
    to_rate: u32,
    channels: u32,
    quality: i32,
) -> bool
    where
        S: FnOnce(u32, u32, u32) -> u32,
        C: FnOnce(u32, u32, u32, i32, u32) -> Created,
{
    &&& from_rate != 0 ==> scale.requires((to_rate, from_rate, MIN_OUTPUT_ROOM))
    &&& forall|n: u32|
        #![trigger create.requires((from_rate, to_rate, clamp_room(n), quality, channels))]
        room_is(scale, to_rate, from_rate, MIN_OUTPUT_ROOM, n) ==> create.requires(
            (from_rate, to_rate, clamp_room(n), quality, channels),
        )
}

/// The room that a resampler is made with: no less than [`MIN_OUTPUT_ROOM`].
pub open spec fn clamp_room(n: u32) -> u32 {
    if n < MIN_OUTPUT_ROOM {
        MIN_OUTPUT_ROOM
    } else {
        n
    }
}

impl Resample {
    /// The quality that the resampler was made with.
    pub closed spec fn set_quality(&self) -> i32 {
        self.quality
    }

    /// The room for output that was asked for.
    pub closed spec fn asked_room(&self) -> u32 {
        self.to_size
    }

    /// Makes a resampler between two rates for interleaved channels.
    pub fn new<S, C>(
        from_rate: u32,
        to_rate: u32,
        channels: u32,
        quality: i32,
        scale: S,
        create: C,
    ) -> (r: Result<Resample>)
        where
            S: FnOnce(u32, u32, u32) -> u32,
            C: FnOnce(u32, u32, u32, i32, u32) -> Created,
        requires
            resampler_askable(scale, create, from_rate, to_rate, channels, quality),
        ensures
            resampler_made(scale, create, from_rate, to_rate, channels, quality, r),
    {
        let n: u32 = calc_buffer_size(to_rate, from_rate, MIN_OUTPUT_ROOM, scale);
        let to_size: u32 = if n < MIN_OUTPUT_ROOM {
            MIN_OUTPUT_ROOM
        } else {
            n
        };
        proof {
            assert(to_size == clamp_room(n));
        }
        let reply = create(from_rate, to_rate, to_size, quality, channels);
        let ghost given = reply;
        proof {
            assert(create.ensures((from_rate, to_rate, clamp_room(n), quality, channels), given));
        }
        let raw = created(reply)?;
        Ok(Resample { raw, quality, to_size })
    }

    /// Makes a resampler of the default quality.
    pub fn with_default_quality<S, C>(
        from_rate: u32,
        to_rate: u32,
        channels: u32,
        scale: S,
        create: C,
    ) -> (r: Result<Resample>)
        where
            S: FnOnce(u32, u32, u32) -> u32,
            C: FnOnce(u32, u32, u32, i32, u32) -> Created,
        requires
            resampler_askable(scale, create, from_rate, to_rate, channels, DEFAULT_QUALITY),
        ensures
            resampler_made(scale, create, from_rate, to_rate, channels, DEFAULT_QUALITY, r),
    {
        Resample::new(from_rate, to_rate, channels, DEFAULT_QUALITY, scale, create)
    }

    /// The resampler's address, which is never null.
    pub fn as_ptr(&self) -> (r: Address)
        ensures
            r == self.addr(),
            r != NULL,
    {
        self.raw.as_ptr()
    }

    /// The source rate.
    pub fn from_rate<F>(&self, call: F) -> (r: u32)
        where
            F: FnOnce(Address) -> u32,
        requires
            call.requires((self.addr(),)),
        ensures
            call.ensures((self.addr(),), r),
    {
        call(self.as_ptr())
    }

    /// The destination rate.
    pub fn to_rate<F>(&self, call: F) -> (r: u32)
        where
            F: FnOnce(Address) -> u32,
        requires
            call.requires((self.addr(),)),
        ensures
            call.ensures((self.addr(),), r),
    {
        call(self.as_ptr())
    }

    /// The number of channels.
    pub fn channels<F>(&self, call: F) -> (r: u32)
        where
            F: FnOnce(Address) -> u32,
        requires
            call.requires((self.addr(),)),
        ensures
            call.ensures((self.addr(),), r),
    {
        call(self.as_ptr())
    }

    /// The quality that the resampler was made with.
    pub fn quality(&self) -> (r: i32)
        ensures
            r == self.set_quality(),
    {
        self.quality
    }

    /// The room for output that was asked for.
    pub fn to_size(&self) -> (r: u32)
        ensures
            r == self.asked_room(),
    {
        self.to_size
    }

    /// The room for output that the core has now.
    pub fn to_capacity<F>(&self, call: F) -> (r: u32)
        where
            F: FnOnce(Address) -> u32,
        requires
            call.requires((self.addr(),)),
        ensures
            call.ensures((self.addr(),), r),
    {
        call(self.as_ptr())
    }

    /// Resamples `src` and returns the output; none where the core has no output buffer. The call is
    /// handed the source and its length as a 32-bit count.
    pub fn process<F>(&self, src: &mut [i16], call: F) -> (r: Vec<i16>)
        where
            F: FnOnce(Address, &[i16], u32) -> Resampled,
        requires
            forall|s: &[i16]|
                #![trigger call.requires((self.addr(), s, capped(old(src)@.len(), u32::MAX as nat)
                    as u32))]
                s@ == old(src)@ ==> call.requires((self.addr(), s, capped(old(src)@.len(), u32::MAX
                    as nat) as u32)),
            forall|a: Address, s: &[i16], n: u32, v: Resampled| #[trigger]
                call.ensures((a, s, n), v) ==> v.source@.len() <= s@.len(),
        ensures
            final(src)@.len() == old(src)@.len(),
            exists|s: &[i16], reply: Resampled|
                s@ == old(src)@ && #[trigger] call.ensures(
                    (self.addr(), s, capped(old(src)@.len(), u32::MAX as nat) as u32),
                    reply,
                ) && r@ == resampled_samples(reply) && final(src)@ == reply.source@ + old(
                    src,
                )@.skip(reply.source@.len() as int),
    {
        let srclen: u32 = count_u32(src.len());
        proof {
            assert(srclen == capped(old(src)@.len(), u32::MAX as nat) as u32);
        }
        let reply = call(self.as_ptr(), &*src, srclen);
        overwrite_head(src, &reply.source);
        match reply.output {
            Some(v) => v,
            None => Vec::new(),
        }
    }
}

/// The factor by which one rate raises another, where that is a whole number above one; else zero.
pub open spec fn upsampling(from_rate: u32, to_rate: u32) -> nat {
    if from_rate > 0 && to_rate % from_rate == 0 && to_rate / from_rate > 1 {
        (to_rate / from_rate) as nat
    } else {
        0
    }
}

/// A resampler for a mono stream.
#[derive(Debug)]
pub struct StreamingResample {
    inner: Resample,
    from_rate: u32,
    to_rate: u32,
    upsample_factor: usize,
}

/// The sample that follows the `i`-th one; the last sample is held.
pub open spec fn next_sample(input: Seq<i16>, i: int) -> i16 {
    if i + 1 < input.len() {
        input[i + 1]
    } else {
        input[i]
    }
}

/// Whether `out` is `input` raised by the factor `n`: each sample, followed by `n - 1` samples on
/// the way to the next one.
pub open spec fn interpolated<L>(interpolate: L, input: Seq<i16>, n: nat, out: Seq<i16>) -> bool
    where
        L: Fn(i16, i16, usize, usize) -> i16,
{
    &&& out.len() == input.len() * n
    &&& forall|i: int, j: int|
        0 <= i < input.len() && 0 <= j < n ==> interpolated_at(
            interpolate,
            input,
            n,
            i,
            j,
            #[trigger] out[i * n + j],
        )
}

/// Whether `s` is the sample at phase `j` behind the `i`-th input sample.
pub open spec fn interpolated_at<L>(interpolate: L, input: Seq<i16>, n: nat, i: int, j: int, s: i16)
    -> bool
    where
        L: Fn(i16, i16, usize, usize) -> i16,
{
    if j == 0 {
        s == input[i]
    } else {
        interpolate.ensures((input[i], next_sample(input, i), j as usize, n as usize), s)
    }
}

/// Whether `out` is what a stream makes of `input` without the core's resampler: the samples as they
/// are between equal rates, and the interpolated ones where the rate is raised by a whole factor.
pub open spec fn stateless_output<L>(
    from_rate: u32,
    to_rate: u32,
    interpolate: L,
    input: Seq<i16>,
    out: Seq<i16>,
) -> bool
    where
        L: Fn(i16, i16, usize, usize) -> i16,
{
    if from_rate == to_rate {
        out == input
    } else {
        interpolated(interpolate, input, upsampling(from_rate, to_rate), out)
    }
}

impl StreamingResample {
    #[verifier::type_invariant]
    closed spec fn rates_set(&self) -> bool {
        &&& self.from_rate > 0
        &&& self.to_rate > 0
        &&& self.upsample_factor == upsampling(self.from_rate, self.to_rate)
    }

    /// The source rate.
    pub closed spec fn source_rate(&self) -> u32 {
        self.from_rate
    }

    /// The destination rate.
    pub closed spec fn target_rate(&self) -> u32 {
        self.to_rate
    }

    /// Whether the stream needs nothing of the core's resampler: the rates are equal, or the source
    /// rate is raised by a whole factor.
    pub open spec fn stateless(&self) -> bool {
        self.source_rate() == self.target_rate() || self.factor() > 1
    }

    /// The core's resampler.
    pub closed spec fn resampler(&self) -> Resample {
        self.inner
    }

    /// The factor by which samples are interpolated; zero where they are not.
    pub open spec fn factor(&self) -> nat {
        upsampling(self.source_rate(), self.target_rate())
    }

    /// Makes a resampler for a mono stream. The rates and the quality, which is between 0 and 10,
    /// are checked before the core is asked for a resampler.
    pub fn new<S, C>(from_rate: u32, to_rate: u32, quality: i32, scale: S, create: C) -> (r:
        core::result::Result<StreamingResample, String>)
        where
            S: FnOnce(u32, u32, u32) -> u32,
            C: FnOnce(u32, u32, u32, i32, u32) -> Created,
        requires
            from_rate != 0 && to_rate != 0 && 0 <= quality <= 10 ==> resampler_askable(
                scale,
                create,
                from_rate,
                to_rate,
                1,
                quality,
            ),
        ensures
            from_rate == 0 || to_rate == 0 ==> (r matches Err(m) && m@ == bad_rates(
                from_rate,
                to_rate,
            )),
            from_rate != 0 && to_rate != 0 && !(0 <= quality <= 10) ==> (r matches Err(m) && m@
                == bad_quality(quality)),
            from_rate != 0 && to_rate != 0 && 0 <= quality <= 10 ==> exists|inner: Result<Resample>|
                #[trigger] resampler_made(scale, create, from_rate, to_rate, 1, quality, inner)
                    && match inner {
                    Ok(x) => r matches Ok(s) && s.resampler() == x && s.source_rate() == from_rate
                        && s.target_rate() == to_rate,
                    Err(e) => r matches Err(m) && m@ == create_failed(e),
                },
    {
        if from_rate == 0 || to_rate == 0 {
            let mut m = String::new();
            m.append("Invalid sample rates: from=");
            append_decimal(&mut m, from_rate);
            m.append(", to=");
            append_decimal(&mut m, to_rate);
            proof {
                assert(m@ =~= bad_rates(from_rate, to_rate));
            }
            return Err(m);
        }
        if !(0 <= quality && quality <= 10) {
            let mut m = String::new();
            m.append("Invalid quality ");
            append_signed(&mut m, quality);
            m.append(": must be 0-10");
            proof {
                assert(m@ =~= bad_quality(quality));
            }
            return Err(m);
        }
        match Resample::new(from_rate, to_rate, 1, quality, scale, create) {
            Ok(inner) => {
                let ratio: u32 = to_rate / from_rate;
                let upsample_factor: usize = if to_rate % from_rate == 0 && ratio > 1 {
                    ratio as usize
                } else {
                    0
                };
                proof {
                    let made: Result<Resample> = Ok(inner);
                    assert(resampler_made(scale, create, from_rate, to_rate, 1, quality, made));
                }
                Ok(StreamingResample { inner, from_rate, to_rate, upsample_factor })
            },
            Err(e) => {
                let mut m = String::new();
                m.append("switch_resample_perform_create failed: ");
                append_error(&mut m, e);
                proof {
                    let made: Result<Resample> = Err(e);
                    assert(resampler_made(scale, create, from_rate, to_rate, 1, quality, made));
                    assert(m@ =~= create_failed(e));
                }
                Err(m)
            },
        }
    }

    /// Resamples `input` into `out`, in place of what was there.
    ///
    /// The same rate on both sides hands the samples through. A rate that is raised by a whole
    /// factor `n` is interpolated: `interpolate` is handed two neighbouring samples, the phase and
    /// the factor, and the last sample of a call is held, so that every call gives exactly `n`
    /// samples for each one. Everything else goes to the core's resampler, by `resample`.
    pub fn process_into<L, F>(&mut self, input: &[i16], out: &mut Vec<i16>, interpolate: L,
        resample: F)
        where
            L: Fn(i16, i16, usize, usize) -> i16,
            F: FnOnce(Address, &[i16], u32) -> Resampled,
        requires
            forall|a: i16, b: i16, j: usize, n: usize|
                0 < j < n ==> interpolate.requires((a, b, j, n)),
            input@.len() > 0 && old(self).source_rate() != old(self).target_rate() && old( self,
                ).factor() <= 1 ==> forall|s: &[i16]|
                #![trigger resample.requires((old(self).resampler().addr(), s, capped(input@.len(),
                    u32::MAX as nat) as u32))]
                s@ == input@ ==> resample.requires((old(self).resampler().addr(), s,
                    capped(input@.len(), u32::MAX as nat) as u32)),
            forall|a: Address, s: &[i16], n: u32, v: Resampled| #[trigger]
                resample.ensures((a, s, n), v) ==> v.source@.len() <= s@.len(),
        ensures
            *final(self) == *old(self),
            input@.len() == 0 ==> final(out)@.len() == 0,
            old(self).source_rate() == old(self).target_rate() ==> final(out)@ == input@,
            old(self).target_rate() % old(self).source_rate() == 0 ==> final(out)@.len()
                * old(self).source_rate() == input@.len() * old(self).target_rate(),
            old(self).target_rate() % old(self).source_rate() == 0 ==> forall|i: int, j: int|
                0 <= i && i + 1 < input@.len() && 0 < j < old(self).target_rate() / old(
                    self,
                ).source_rate() ==> interpolate.ensures(
                    (
                        input@[i],
                        input@[i + 1],
                        j as usize,
                        (old(self).target_rate() / old(self).source_rate()) as usize,
                    ),
                    #[trigger] final(out)@[i * (old(self).target_rate() / old(self).source_rate())
                        + j],
                ),
            old(self).stateless() ==> stateless_output(
                old(self).source_rate(),
                old(self).target_rate(),
                interpolate,
                input@,
                final(out)@,
            ),
            input@.len() > 0 && old(self).source_rate() != old(self).target_rate() && old(
                self,
            ).factor() <= 1 ==> exists|s: &[i16], reply: Resampled|
                s@ == input@ && #[trigger] resample.ensures(
                    (
                        old(self).resampler().addr(),
                        s,
                        capped(input@.len(), u32::MAX as nat) as u32,
                    ),
                    reply,
                ) && final(out)@ == resampled_samples(reply),
    {
        proof {
            use_type_invariant(&*self);
        }
        out.clear();
        if input.len() == 0 {
            proof {
                assert(out@ =~= input@);
                let n = old(self).factor();
                assert(0 * n == 0) by (nonlinear_arith);
            }
            return;
        }
        if self.from_rate == self.to_rate {
            proof {
                same_rate_is_no_factor(self.from_rate);
            }
            append_copy(out, input);
            proof {
                assert(out@ =~= input@);
            }
            return;
        }
        if self.upsample_factor > 1 {
            let n: usize = self.upsample_factor;
            let mut i: usize = 0;
            proof {
                assert(0 * n == 0) by (nonlinear_arith);
            }
            while i < input.len()
                invariant
                    i <= input@.len(),
                    n > 1,
                    forall|a: i16, b: i16, j: usize, m: usize|
                        0 < j < m ==> interpolate.requires((a, b, j, m)),
                    out@.len() == i * n,
                    forall|k: int, j: int|
                        0 <= k < i && 0 <= j < n ==> interpolated_at(
                            interpolate,
                            input@,
                            n as nat,
                            k,
                            j,
                            #[trigger] out@[k * n + j],
                        ),
                decreases input@.len() - i,
            {
                let cur: i16 = input[i];
                let next: i16 = if i + 1 < input.len() {
                    input[i + 1]
                } else {
                    cur
                };
                let ghost done = out@;
                out.push(cur);
                let mut j: usize = 1;
                while j < n
                    invariant
                        i < input@.len(),
                        1 <= j <= n,
                        forall|a: i16, b: i16, p: usize, m: usize|
                            0 < p < m ==> interpolate.requires((a, b, p, m)),
                        cur == input@[i as int],
                        next == next_sample(input@, i as int),
                        done.len() == i * n,
                        out@.len() == i * n + j,
                        forall|k: int| 0 <= k < done.len() ==> out@[k] == done[k],
                        out@[i * n] == cur,
                        forall|p: int|
                            0 < p < j ==> interpolate.ensures(
                                (cur, next, p as usize, n),
                                #[trigger] out@[i * n + p],
                            ),
                    decreases n - j,
                {
                    let s: i16 = interpolate(cur, next, j, n);
                    out.push(s);
                    j = j + 1;
                }
                proof {
                    assert((i + 1) * n == i * n + n) by (nonlinear_arith);
                    assert forall|k: int, p: int| 0 <= k < i + 1 && 0 <= p < n implies
                        interpolated_at(
                        interpolate,
                        input@,
                        n as nat,
                        k,
                        p,
                        #[trigger] out@[k * n + p],
                    ) by {
                        if k < i {
                            assert(0 <= k * n && k * n + p < i * n) by (nonlinear_arith)
                                requires
                                    0 <= k,
                                    k + 1 <= i,
                                    0 <= p < n,
                            ;
                            assert(out@[k * n + p] == done[k * n + p]);
                        }
                    }
                }
                i = i + 1;
            }
            proof {
                factor_is_the_quotient(self.from_rate, self.to_rate);
                assert(interpolated(interpolate, input@, n as nat, out@));
                rates_and_lengths_agree(self.from_rate, self.to_rate, interpolate, input@, out@);
            }
            return;
        }
        proof {
            factor_is_the_quotient(self.from_rate, self.to_rate);
        }
        let mut scratch: Vec<i16> = Vec::new();
        append_copy(&mut scratch, input);
        proof {
            assert(scratch@ =~= input@);
            assert(old(self).resampler() == self.inner);
            assert(old(self).resampler().addr() == self.inner.addr());
        }
        let output = self.inner.process(scratch.as_mut_slice(), resample);
        append_copy(out, output.as_slice());
        proof {
            assert(out@ =~= output@);
        }
    }

    /// The source rate.
    pub fn from_rate(&self) -> (r: u32)
        ensures
            r == self.source_rate(),
            r > 0,
    {
        proof {
            use_type_invariant(self);
        }
        self.from_rate
    }

    /// The destination rate.
    pub fn to_rate(&self) -> (r: u32)
        ensures
            r == self.target_rate(),
            r > 0,
    {
        proof {
            use_type_invariant(self);
        }
        self.to_rate
    }

    /// Whether the stream is interpolated.
    pub fn is_integer_upsample(&self) -> (r: bool)
        ensures
            r == (self.factor() > 1),
    {
        proof {
            use_type_invariant(self);
        }
        self.upsample_factor > 1
    }

    /// Gives the stream up, together with the core's resampler.
    pub fn release<D>(self, destroy: D)
        where
            D: FnOnce(Address),
        requires
            destroy.requires((self.resampler().addr(),)),
        ensures
            destroy.ensures((self.resampler().addr(),), ()),
    {
        destroy(self.inner.as_ptr())
    }

    /// Makes the stream forget what it heard: the core's resampler is replaced by a fresh one of the
    /// same quality and the old one is destroyed. Where no fresh one can be made the old one stays
    /// and a warning is logged. A stream that is interpolated has nothing to forget.
    pub fn reset<S, C, D, G>(&mut self, scale: S, create: C, destroy: D, log: G)
        where
            S: FnOnce(u32, u32, u32) -> u32,
            C: FnOnce(u32, u32, u32, i32, u32) -> Created,
            D: FnOnce(Address),
            G: FnOnce(i32, &CText),
        requires
            old(self).factor() <= 1 ==> resampler_askable(
                scale,
                create,
                old(self).source_rate(),
                old(self).target_rate(),
                1,
                old(self).resampler().set_quality(),
            ),
            forall|n: u32, reply: Created|
                #![trigger create.ensures(
                    (
                        old(self).source_rate(),
                        old(self).target_rate(),
                        clamp_room(n),
                        old(self).resampler().set_quality(),
                        1u32,
                    ),
                    reply,
                )]
                old(self).factor() <= 1 && create.ensures(
                    (
                        old(self).source_rate(),
                        old(self).target_rate(),
                        clamp_room(n),
                        old(self).resampler().set_quality(),
                        1u32,
                    ),
                    reply,
                ) ==> match created_outcome(reply) {
                    Ok(_) => destroy.requires((old(self).resampler().addr(),)),
                    Err(e) => forall|line: &CText|
                        #![trigger log.requires((raw_level(LogLevel::Warning), line))]
                        line.spells(log_line("fswtch"@, reset_failed(e))) ==> log.requires(
                            (raw_level(LogLevel::Warning), line),
                        ),
                },
        ensures
            final(self).source_rate() == old(self).source_rate(),
            final(self).target_rate() == old(self).target_rate(),
            old(self).factor() > 1 ==> final(self).resampler() == old(self).resampler(),
            old(self).factor() <= 1 ==> exists|fresh: Result<Resample>| #[trigger]
                resampler_made(
                    scale,
                    create,
                    old(self).source_rate(),
                    old(self).target_rate(),
                    1,
                    old(self).resampler().set_quality(),
                    fresh,
                ) && match fresh {
                    Ok(x) => final(self).resampler() == x && destroy.ensures(
                        (old(self).resampler().addr(),),
                        (),
                    ),
                    Err(e) => final(self).resampler() == old(self).resampler() && exists|line: &CText|
                        line.spells(log_line("fswtch"@, reset_failed(e))) && #[trigger] log.ensures(
                            (raw_level(LogLevel::Warning), line),
                            (),
                        ),
                },
    {
        proof {
            use_type_invariant(&*self);
        }
        if self.upsample_factor > 1 {
            return;
        }
        match Resample::new(self.from_rate, self.to_rate, 1, self.inner.quality(), scale, create) {
            Ok(new) => {
                let old_raw: Address = self.inner.as_ptr();
                proof {
                    let made: Result<Resample> = Ok(new);
                    assert(resampler_made(
                        scale,
                        create,
                        old(self).source_rate(),
                        old(self).target_rate(),
                        1,
                        old(self).resampler().set_quality(),
                        made,
                    ));
                }
                self.inner = new;
                destroy(old_raw);
            },
            Err(e) => {
                let mut m = String::new();
                m.append("StreamingResample::reset failed (");
                append_error(&mut m, e);
                m.append("); keeping old handle");
                proof {
                    let made: Result<Resample> = Err(e);
                    assert(resampler_made(
                        scale,
                        create,
                        old(self).source_rate(),
                        old(self).target_rate(),
                        1,
                        old(self).resampler().set_quality(),
                        made,
                    ));
                    assert(m@ =~= reset_failed(e));
                }
                log_warning("fswtch", m.as_str(), log);
            },
        }
    }
}

/// The message for rates of which one is zero.
pub open spec fn bad_rates(from_rate: u32, to_rate: u32) -> Seq<char> {
    "Invalid sample rates: from="@ + decimal(from_rate as nat) + ", to="@ + decimal(to_rate as nat)
}

/// The message for a quality that is out of range.
pub open spec fn bad_quality(quality: i32) -> Seq<char> {
    "Invalid quality "@ + signed_decimal(quality as int) + ": must be 0-10"@
}

/// An error as it is shown in a message.
pub open spec fn shown_error(e: SwitchError) -> Seq<char> {
    "SwitchError(Status("@ + decimal(e.0.0 as nat) + "))"@
}

/// The message for a resampler that the core did not make.
pub open spec fn create_failed(e: SwitchError) -> Seq<char> {
    "switch_resample_perform_create failed: "@ + shown_error(e)
}

/// The warning for a resampler that could not be replaced.
pub open spec fn reset_failed(e: SwitchError) -> Seq<char> {
    "StreamingResample::reset failed ("@ + shown_error(e) + "); keeping old handle"@
}

/// Appends an error as it is shown in a message.
fn append_error(out: &mut String, e: SwitchError)
    ensures
        final(out)@ == old(out)@ + shown_error(e),
{
    let ghost start = out@;
    out.append("SwitchError(Status(");
    append_decimal(out, e.0.raw());
    out.append("))");
    proof {
        assert(out@ =~= start + shown_error(e));
    }
}

/// Equal rates raise nothing.
pub proof fn same_rate_is_no_factor(rate: u32)
    ensures
        upsampling(rate, rate) == 0,
{
    if rate > 0 {
        assert(rate / rate == 1) by (nonlinear_arith)
            requires
                rate > 0,
        ;
    }
}

/// A stream is interpolated exactly where the destination rate is a multiple of the source rate and
/// not equal to it; the factor is then the quotient.
pub proof fn factor_is_the_quotient(from_rate: u32, to_rate: u32)
    requires
        from_rate > 0,
        to_rate > 0,
    ensures
        upsampling(from_rate, to_rate) > 1 <==> to_rate % from_rate == 0 && to_rate != from_rate,
        upsampling(from_rate, to_rate) > 0 ==> upsampling(from_rate, to_rate) * from_rate == to_rate,
{
    let q = to_rate / from_rate;
    let m = to_rate % from_rate;
    lemma_fundamental_div_mod(to_rate as int, from_rate as int);
    lemma_mod_bound(to_rate as int, from_rate as int);
    assert(q * from_rate == from_rate * q) by (nonlinear_arith);
    if m == 0 && to_rate != from_rate && q <= 1 {
        assert(q == 0 || q == 1);
        assert(false) by (nonlinear_arith)
            requires
                to_rate == from_rate * q + m,
                m == 0,
                q == 0 || q == 1,
                to_rate > 0,
                to_rate != from_rate,
        ;
    }
    if m == 0 && to_rate == from_rate {
        same_rate_is_no_factor(to_rate);
    }
}

/// Whether `interpolate` is a function of what it is asked: it answers alike when asked alike.
pub open spec fn answers_alike<L>(interpolate: L) -> bool
    where
        L: Fn(i16, i16, usize, usize) -> i16,
{
    forall|a: i16, b: i16, j: usize, k: usize, x: i16, y: i16| #[trigger]
        interpolate.ensures((a, b, j, k), x) && #[trigger] interpolate.ensures((a, b, j, k), y)
            ==> x == y
}

/// Whether `s` lies between `a` and `b`, or is one of them.
pub open spec fn between(a: i16, b: i16, s: i16) -> bool {
    a <= s <= b || b <= s <= a
}

/// Raising the rate keeps every sample and puts `n - 1` samples behind it, each of them asked for with
/// the sample itself, the very next sample of the input, its phase and the factor. Behind the last
/// sample there is no next one, and the last sample stands in for it.
pub proof fn inserted_samples_lead_to_the_next<L>(
    interpolate: L,
    input: Seq<i16>,
    n: nat,
    out: Seq<i16>,
)
    where
        L: Fn(i16, i16, usize, usize) -> i16,
    requires
        n > 0,
        interpolated(interpolate, input, n, out),
    ensures
        out.len() == input.len() * n,
        forall|i: int| 0 <= i < input.len() ==> #[trigger] out[i * n + 0] == input[i],
        forall|i: int, j: int|
            0 <= i && i + 1 < input.len() && 0 < j < n ==> interpolate.ensures(
                (input[i], input[i + 1], j as usize, n as usize),
                #[trigger] out[i * n + j],
            ),
        forall|i: int, j: int|
            i >= 0 && i + 1 == input.len() && 0 < j < n ==> interpolate.ensures(
                (input[i], input[i], j as usize, n as usize),
                #[trigger] out[i * n + j],
            ),
{
    assert forall|i: int| 0 <= i < input.len() implies #[trigger] out[i * n + 0] == input[i] by {
        assert(interpolated_at(interpolate, input, n, i, 0, out[i * n + 0]));
    }
    assert forall|i: int, j: int|
        0 <= i && i + 1 < input.len() && 0 < j < n implies interpolate.ensures(
        (input[i], input[i + 1], j as usize, n as usize),
        #[trigger] out[i * n + j],
    ) by {
        assert(interpolated_at(interpolate, input, n, i, j, out[i * n + j]));
    }
    assert forall|i: int, j: int|
        i >= 0 && i + 1 == input.len() && 0 < j < n implies interpolate.ensures(
        (input[i], input[i], j as usize, n as usize),
        #[trigger] out[i * n + j],
    ) by {
        assert(interpolated_at(interpolate, input, n, i, j, out[i * n + j]));
    }
}

/// A stream that needs nothing of the core hands the samples through between equal rates. Where the
/// target rate is a multiple of the source rate, the samples it gives stand to the samples it takes as
/// the rates do, every input sample is among them in its place, and each one between two inputs is asked
/// for with exactly these two.
pub proof fn rates_and_lengths_agree<L>(
    from_rate: u32,
    to_rate: u32,
    interpolate: L,
    input: Seq<i16>,
    out: Seq<i16>,
)
    where
        L: Fn(i16, i16, usize, usize) -> i16,
    requires
        from_rate > 0,
        to_rate > 0,
        to_rate % from_rate == 0,
        stateless_output(from_rate, to_rate, interpolate, input, out),
    ensures
        from_rate == to_rate ==> out == input,
        out.len() * from_rate == input.len() * to_rate,
        forall|i: int|
            0 <= i < input.len() ==> #[trigger] out[i * (to_rate / from_rate) + 0] == input[i],
        forall|i: int, j: int|
            0 <= i && i + 1 < input.len() && 0 < j < to_rate / from_rate ==> interpolate.ensures(
                (input[i], input[i + 1], j as usize, (to_rate / from_rate) as usize),
                #[trigger] out[i * (to_rate / from_rate) + j],
            ),
        forall|i: int, j: int|
            i >= 0 && i + 1 == input.len() && 0 < j < to_rate / from_rate ==> interpolate.ensures(
                (input[i], input[i], j as usize, (to_rate / from_rate) as usize),
                #[trigger] out[i * (to_rate / from_rate) + j],
            ),
{
    let n = (to_rate / from_rate) as nat;
    lemma_fundamental_div_mod(to_rate as int, from_rate as int);
    if from_rate == to_rate {
        assert(to_rate / from_rate == 1) by (nonlinear_arith)
            requires
                from_rate == to_rate,
                from_rate > 0,
        ;
    } else {
        factor_is_the_quotient(from_rate, to_rate);
        assert(upsampling(from_rate, to_rate) == n);
        inserted_samples_lead_to_the_next(interpolate, input, n, out);
        assert(out.len() * from_rate == input.len() * to_rate) by (nonlinear_arith)
            requires
                out.len() == input.len() * n,
                to_rate == from_rate * n,
        ;
    }
}

/// A stream goes without the core's resampler exactly where its target rate is a multiple of its source
/// rate.
pub proof fn multiples_are_stateless(stream: StreamingResample)
    requires
        stream.source_rate() > 0,
        stream.target_rate() > 0,
    ensures
        stream.stateless() <==> stream.target_rate() % stream.source_rate() == 0,
{
    factor_is_the_quotient(stream.source_rate(), stream.target_rate());
    if stream.source_rate() == stream.target_rate() {
        let a = stream.source_rate();
        assert(a % a == 0) by (nonlinear_arith)
            requires
                a > 0,
        ;
    }
}

/// What the core answers a resampling with is the output, all of it, and nothing where it has no output
/// buffer.
pub proof fn output_is_the_answer(reply: Resampled)
    ensures
        reply.output matches Some(v) ==> resampled_samples(reply) == v@,
        reply.output is None ==> resampled_samples(reply).len() == 0,
{
}

/// A count that is handed over is no larger than the length and no larger than its type, and it is one
/// of the two.
pub proof fn counts_are_the_smaller(len: nat, max: nat)
    ensures
        capped(len, max) <= len,
        capped(len, max) <= max,
        capped(len, max) == len || capped(len, max) == max,
{
}

/// A resampler is made for the rates, the channels and the quality that were asked for, in their order.
/// Its room is at least 8192, and at least what that many samples become at the other rate, and it is
/// one of the two. No source rate asks for nothing more than the least.
pub proof fn resamplers_have_room<S, C>(
    scale: S,
    create: C,
    from_rate: u32,
    to_rate: u32,
    channels: u32,
    quality: i32,
    r: Result<Resample>,
)
    where
        S: FnOnce(u32, u32, u32) -> u32,
        C: FnOnce(u32, u32, u32, i32, u32) -> Created,
    requires
        resampler_made(scale, create, from_rate, to_rate, channels, quality, r),
    ensures
        exists|room: u32, reply: Created|
            {
                &&& #[trigger] create.ensures((from_rate, to_rate, room, quality, channels), reply)
                &&& room >= 8192
                &&& from_rate == 0 ==> room == 8192
                &&& from_rate != 0 ==> exists|n: u32| #[trigger]
                    scale.ensures((to_rate, from_rate, 8192u32), n) && room >= n && (room == 8192
                        || room == n)
                &&& match r {
                    Ok(x) => reply.status == 0 && reply.raw != 0 && x.addr() == reply.raw
                        && x.set_quality() == quality && x.asked_room() == room,
                    Err(e) => if reply.status != 0 {
                        e.0.0 == reply.status
                    } else {
                        reply.raw == 0 && e.0.0 == 9
                    },
                }
            },
{
    let (n, reply) = choose|n: u32, reply: Created|
        {
            &&& room_is(scale, to_rate, from_rate, MIN_OUTPUT_ROOM, n)
            &&& #[trigger] create.ensures(
                (from_rate, to_rate, clamp_room(n), quality, channels),
                reply,
            )
            &&& made_at(r, reply)
            &&& r matches Ok(x) ==> x.set_quality() == quality && x.asked_room() == clamp_room(n)
        };
    let room = clamp_room(n);
    assert(create.ensures((from_rate, to_rate, room, quality, channels), reply));
    assert(from_rate != 0 ==> scale.ensures((to_rate, from_rate, 8192u32), n));
}

/// A change of the volume keeps the length, and an empty run is left alone. Else the core is handed the
/// samples, their number and the volume, and the samples that it answers with stand at the head, in
/// their order, with the rest as it was.
pub proof fn volume_is_changed_in_place<F>(call: F, data: Seq<i16>, vol: i32, after: Seq<i16>)
    where
        F: FnOnce(&[i16], u32, i32) -> Vec<i16>,
    requires
        volume_changed(call, data, vol, after),
        volume_askable(call, data, vol),
        data.len() <= u32::MAX,
    ensures
        after.len() == data.len(),
        data.len() > 0 ==> exists|s: &[i16], v: Vec<i16>|
            s@ == data && #[trigger] call.ensures((s, data.len() as u32, vol), v) && (forall|i: int|
                0 <= i < data.len() ==> #[trigger] after[i] == if i < v@.len() {
                    v@[i]
                } else {
                    data[i]
                }),
{
    if data.len() > 0 {
        let (s, v) = choose|s: &[i16], v: Vec<i16>|
            s@ == data && #[trigger] call.ensures(
                (s, capped(data.len(), u32::MAX as nat) as u32, vol),
                v,
            ) && after == v@ + data.skip(v@.len() as int);
        assert(v@.len() <= data.len());
        assert(call.ensures((s, data.len() as u32, vol), v));
    }
}

/// A mix keeps the length, and an empty run is left alone and counts as none. Else the core is handed
/// the samples, their number, the other samples, their number and the channels, and the samples that
/// it answers with stand at the head, with the rest as it was.
pub proof fn mix_is_made_in_place<F>(
    call: F,
    data: Seq<i16>,
    other: &[i16],
    channels: u32,
    after: Seq<i16>,
    total: u32,
)
    where
        F: FnOnce(&[i16], u32, &[i16], u32, i32) -> (u32, Vec<i16>),
    requires
        mixed(call, data, other, channels, after, total),
        mix_askable(call, data, other, channels),
        data.len() <= u32::MAX,
        other@.len() <= u32::MAX,
        channels <= i32::MAX,
    ensures
        after.len() == data.len(),
        data.len() == 0 ==> total == 0,
        data.len() > 0 ==> exists|s: &[i16], v: Vec<i16>|
            s@ == data && #[trigger] call.ensures(
                (s, data.len() as u32, other, other@.len() as u32, channels as i32),
                (total, v),
            ) && (forall|i: int|
                0 <= i < data.len() ==> #[trigger] after[i] == if i < v@.len() {
                    v@[i]
                } else {
                    data[i]
                }),
{
    if data.len() > 0 {
        let (s, v) = choose|s: &[i16], v: Vec<i16>|
            s@ == data && #[trigger] call.ensures(
                (
                    s,
                    capped(data.len(), u32::MAX as nat) as u32,
                    other,
                    capped(other@.len(), u32::MAX as nat) as u32,
                    capped(channels as nat, i32::MAX as nat) as i32,
                ),
                (total, v),
            ) && after == v@ + data.skip(v@.len() as int);
        assert(v@.len() <= data.len());
        assert(call.ensures(
            (s, data.len() as u32, other, other@.len() as u32, channels as i32),
            (total, v),
        ));
    }
}

/// Interpolated samples stay between their neighbours, and the tail of a call is held: the samples
/// behind the last one equal it. This is so wherever each single answer of `interpolate` lies between
/// the two samples that it is asked for.
pub proof fn interpolation_stays_between<L>(interpolate: L, input: Seq<i16>, n: nat, out: Seq<i16>)
    where
        L: Fn(i16, i16, usize, usize) -> i16,
    requires
        n > 0,
        interpolated(interpolate, input, n, out),
        forall|a: i16, b: i16, j: usize, k: usize, s: i16| #[trigger]
            interpolate.ensures((a, b, j, k), s) ==> between(a, b, s),
    ensures
        forall|i: int, j: int|
            0 <= i < input.len() && 0 <= j < n ==> between(
                input[i],
                next_sample(input, i),
                #[trigger] out[i * n + j],
            ),
        forall|i: int, j: int|
            0 <= i && i + 1 < input.len() && 0 <= j < n ==> {
                let s = #[trigger] out[i * n + j];
                input[i] <= s <= input[i + 1] || input[i + 1] <= s <= input[i]
            },
        input.len() > 0 ==> forall|j: int|
            0 <= j < n ==> #[trigger] out[(input.len() - 1) * n + j] == input.last(),
{
    assert forall|i: int, j: int| 0 <= i < input.len() && 0 <= j < n implies between(
        input[i],
        next_sample(input, i),
        #[trigger] out[i * n + j],
    ) by {
        assert(interpolated_at(interpolate, input, n, i, j, out[i * n + j]));
    }
    if input.len() > 0 {
        let last = input.len() - 1;
        assert forall|j: int| 0 <= j < n implies #[trigger] out[(input.len() - 1) * n + j]
            == input.last() by {
            assert(between(input[last], next_sample(input, last), out[last * n + j]));
        }
    }
}

/// A reset changes nothing of a stream that the core's resampler has no part in: the same input gives
/// the same output before and after it. `before` and `after` are the stream on both sides of a
/// [`StreamingResample::reset`], which keeps the rates.
pub proof fn reset_keeps_the_output<L>(
    before: StreamingResample,
    after: StreamingResample,
    interpolate: L,
    input: Seq<i16>,
    first: Seq<i16>,
    second: Seq<i16>,
)
    where
        L: Fn(i16, i16, usize, usize) -> i16,
    requires
        after.source_rate() == before.source_rate(),
        after.target_rate() == before.target_rate(),
        before.stateless(),
        stateless_output(before.source_rate(), before.target_rate(), interpolate, input, first),
        stateless_output(after.source_rate(), after.target_rate(), interpolate, input, second),
        answers_alike(interpolate),
    ensures
        after.factor() == before.factor(),
        after.stateless(),
        first == second,
{
    if before.source_rate() != before.target_rate() {
        interpolation_is_stateless(interpolate, input, before.factor(), first, second);
    }
}

/// Interpolation has no memory: the same samples give the same output at every call, and so also after
/// a [`StreamingResample::reset`], which keeps the rates. `interpolate` answers alike when asked alike.
pub proof fn interpolation_is_stateless<L>(
    interpolate: L,
    input: Seq<i16>,
    n: nat,
    before: Seq<i16>,
    after: Seq<i16>,
)
    where
        L: Fn(i16, i16, usize, usize) -> i16,
    requires
        n > 0,
        interpolated(interpolate, input, n, before),
        interpolated(interpolate, input, n, after),
        answers_alike(interpolate),
    ensures
        before == after,
{
    assert forall|m: int| 0 <= m < before.len() implies before[m] == after[m] by {
        let i = m / n as int;
        let j = m % n as int;
        lemma_fundamental_div_mod(m, n as int);
        assert(m == i * n + j) by (nonlinear_arith)
            requires
                m == n * i + j,
        ;
        assert(0 <= i < input.len()) by (nonlinear_arith)
            requires
                m == i * n + j,
                0 <= m < input.len() * n,
                0 <= j < n,
        ;
        assert(interpolated_at(interpolate, input, n, i, j, before[i * n + j]));
        assert(interpolated_at(interpolate, input, n, i, j, after[i * n + j]));
    }
    assert(before =~= after);
}

/// Interpolated output holds the input: every `n`-th sample is an input sample, in order.
pub proof fn interpolation_keeps_the_input<L>(interpolate: L, input: Seq<i16>, n: nat, out: Seq<i16>)
    where
        L: Fn(i16, i16, usize, usize) -> i16,
    requires
        n > 0,
        interpolated(interpolate, input, n, out),
    ensures
        out.len() == input.len() * n,
        forall|i: int|
            0 <= i < input.len() ==> 0 <= #[trigger] (i * n) < out.len() && out[i * n] == input[i],
{
    assert forall|i: int| 0 <= i < input.len() implies 0 <= #[trigger] (i * n) < out.len() && out[i
        * n] == input[i] by {
        assert(0 <= i * n && i * n < input.len() * n) by (nonlinear_arith)
            requires
                0 <= i < input.len(),
                n > 0,
        ;
        assert(i * n + 0 == i * n);
        assert(interpolated_at(interpolate, input, n, i, 0, out[i * n + 0]));
    }
}

/// The number of samples that come out does not depend on how the stream is cut into calls.
pub proof fn interpolated_lengths_add<L>(
    interpolate: L,
    a: Seq<i16>,
    b: Seq<i16>,
    n: nat,
    out_a: Seq<i16>,
    out_b: Seq<i16>,
    out_ab: Seq<i16>,
)
    where
        L: Fn(i16, i16, usize, usize) -> i16,
    requires
        interpolated(interpolate, a, n, out_a),
        interpolated(interpolate, b, n, out_b),
        interpolated(interpolate, a + b, n, out_ab),
    ensures
        out_a.len() + out_b.len() == out_ab.len(),
{
    assert(a.len() * n + b.len() * n == (a.len() + b.len()) * n) by (nonlinear_arith);
}

/// How the gain control works. Every field is zero by default.
#[derive(Debug, Clone, Copy, PartialEq, Eq, Structural)]
pub struct AgcConfig {
    /// The average energy that is aimed at.
    pub energy_avg: u32,
    /// The energy below which nothing is raised.
    pub low_energy_point: u32,
    /// The distance between signal and noise.
    pub margin: u32,
    /// How fast the gain follows.
    pub change_factor: u32,
    /// The number of samples in a period.
    pub period_len: u32,
}

impl Default for AgcConfig {
    fn default() -> (r: AgcConfig)
        ensures
            r == (AgcConfig {
                energy_avg: 0,
                low_energy_point: 0,
                margin: 0,
                change_factor: 0,
                period_len: 0,
            }),
    {
        AgcConfig { energy_avg: 0, low_energy_point: 0, margin: 0, change_factor: 0, period_len: 0 }
    }
}

impl AgcConfig {
    /// Sets the average energy that is aimed at.
    pub fn energy_avg(self, energy_avg: u32) -> (r: AgcConfig)
        ensures
            r == (AgcConfig { energy_avg, ..self }),
    {
        AgcConfig { energy_avg, ..self }
    }

    /// Sets the energy below which nothing is raised.
    pub fn low_energy_point(self, low_energy_point: u32) -> (r: AgcConfig)
        ensures
            r == (AgcConfig { low_energy_point, ..self }),
    {
        AgcConfig { low_energy_point, ..self }
    }

    /// Sets the distance between signal and noise.
    pub fn margin(self, margin: u32) -> (r: AgcConfig)
        ensures
            r == (AgcConfig { margin, ..self }),
    {
        AgcConfig { margin, ..self }
    }

    /// Sets how fast the gain follows.
    pub fn change_factor(self, change_factor: u32) -> (r: AgcConfig)
        ensures
            r == (AgcConfig { change_factor, ..self }),
    {
        AgcConfig { change_factor, ..self }
    }

    /// Sets the number of samples in a period.
    pub fn period_len(self, period_len: u32) -> (r: AgcConfig)
        ensures
            r == (AgcConfig { period_len, ..self }),
    {
        AgcConfig { period_len, ..self }
    }
}

/// A gain control of the core. It holds the tokens that were set on it, because the core may keep
/// pointing at them.
#[derive(Debug)]
pub struct Agc {
    raw: Handle,
    tokens: Vec<CText>,
}

impl At for Agc {
    closed spec fn addr(&self) -> Address {
        self.raw.addr()
    }
}

/// What the core answers to a feed: a status, and the samples as they now are, from the head on.
#[derive(Debug)]
pub struct Fed {
    pub status: RawStatus,
    pub samples: Vec<i16>,
}

impl Agc {
    /// The tokens that the gain control holds, in the order in which they were set.
    pub closed spec fn held(&self) -> Seq<CText> {
        self.tokens@
    }

    /// Makes a gain control.
    pub fn with_config<C>(config: AgcConfig, create: C) -> (r: Result<Agc>)
        where
            C: FnOnce(AgcConfig) -> Created,
        requires
            create.requires((config,)),
        ensures
            exists|reply: Created| #[trigger] create.ensures((config,), reply) && made_at(r, reply),
            r matches Ok(a) ==> a.held().len() == 0,
    {
        let reply = create(config);
        let raw = created(reply)?;
        Ok(Agc { raw, tokens: Vec::new() })
    }

    /// Makes a gain control of single values.
    pub fn new<C>(
        energy_avg: u32,
        low_energy_point: u32,
        margin: u32,
        change_factor: u32,
        period_len: u32,
        create: C,
    ) -> (r: Result<Agc>)
        where
            C: FnOnce(AgcConfig) -> Created,
        requires
            create.requires((AgcConfig { energy_avg, low_energy_point, margin, change_factor,
                period_len },)),
        ensures
            exists|reply: Created| #[trigger]
                create.ensures(
                    (AgcConfig { energy_avg, low_energy_point, margin, change_factor, period_len },),
                    reply,
                ) && made_at(r, reply),
            r matches Ok(a) ==> a.held().len() == 0,
    {
        Agc::with_config(
            AgcConfig { energy_avg, low_energy_point, margin, change_factor, period_len },
            create,
        )
    }

    /// The gain control's address, which is never null.
    pub fn as_ptr(&self) -> (r: Address)
        ensures
            r == self.addr(),
            r != NULL,
    {
        self.raw.as_ptr()
    }

    /// Sets all values.
    pub fn set<F>(
        &self,
        energy_avg: u32,
        low_energy_point: u32,
        margin: u32,
        change_factor: u32,
        period_len: u32,
        call: F,
    )
        where
            F: FnOnce(Address, u32, u32, u32, u32, u32),
        requires
            call.requires(
                (
                    self.addr(),
                    energy_avg,
                    low_energy_point,
                    margin,
                    change_factor,
                    period_len,
                ),
            ),
        ensures
            call.ensures(
                (
                    self.addr(),
                    energy_avg,
                    low_energy_point,
                    margin,
                    change_factor,
                    period_len,
                ),
                (),
            ),
    {
        call(
                self.as_ptr(),
                energy_avg,
                low_energy_point,
                margin,
                change_factor,
                period_len,
            )
    }

    /// Sets the average energy that is aimed at.
    pub fn set_energy_avg<F>(&self, energy_avg: u32, call: F)
        where
            F: FnOnce(Address, u32),
        requires
            call.requires((self.addr(), energy_avg)),
        ensures
            call.ensures((self.addr(), energy_avg), ()),
    {
        call(self.as_ptr(), energy_avg)
    }

    /// Sets the energy below which nothing is raised.
    pub fn set_energy_low<F>(&self, low_energy_point: u32, call: F)
        where
            F: FnOnce(Address, u32),
        requires
            call.requires((self.addr(), low_energy_point)),
        ensures
            call.ensures((self.addr(), low_energy_point), ()),
    {
        call(self.as_ptr(), low_energy_point)
    }

    /// Sets a token. The token is held from then on.
    pub fn set_token<F>(&mut self, token: &str, call: F) -> (r: Result<()>)
        where
            F: FnOnce(Address, &CText),
        requires
            c_safe(token@) ==> forall|c: CText|
                #![trigger call.requires((old(self).addr(), &c))]
                c.spells(token@) ==> call.requires((old(self).addr(), &c)),
        ensures
            final(self).addr() == old(self).addr(),
            !c_safe(token@) ==> r == Err::<(), SwitchError>(generic_error()) && final(self).held()
                == old(self).held(),
            c_safe(token@) ==> r == Ok::<(), SwitchError>(()) && exists|c: CText|
                c.spells(token@) && #[trigger] call.ensures((old(self).addr(), &c), ())
                    && final(self).held() == old(self).held().push(c),
    {
        let token = cstring(token)?;
        call(self.as_ptr(), &token);
        self.tokens.push(token);
        Ok(())
    }

    /// Applies the gain to interleaved samples in place, whatever the status is.
    pub fn feed<F>(&self, samples: &mut [i16], channels: u32, call: F) -> (r: Result<()>)
        where
            F: FnOnce(Address, &[i16], u32, u32) -> Fed,
        requires
            forall|s: &[i16]|
                #![trigger call.requires((self.addr(), s, capped(old(samples)@.len(), u32::MAX as
                    nat) as u32, channels))]
                s@ == old(samples)@ ==> call.requires((self.addr(), s, capped(old(samples)@.len(),
                    u32::MAX as nat) as u32, channels)),
            forall|a: Address, s: &[i16], n: u32, c: u32, v: Fed| #[trigger]
                call.ensures((a, s, n, c), v) ==> v.samples@.len() <= s@.len(),
        ensures
            final(samples)@.len() == old(samples)@.len(),
            exists|s: &[i16], reply: Fed|
                s@ == old(samples)@ && #[trigger] call.ensures(
                    (self.addr(), s, capped(old(samples)@.len(), u32::MAX as nat) as u32, channels),
                    reply,
                ) && r == status_outcome(reply.status) && final(samples)@ == reply.samples@ + old(
                    samples,
                )@.skip(reply.samples@.len() as int),
    {
        let count: u32 = count_u32(samples.len());
        proof {
            assert(count == capped(old(samples)@.len(), u32::MAX as nat) as u32);
        }
        let reply = call(self.as_ptr(), &*samples, count, channels);
        overwrite_head(samples, &reply.samples);
        status_to_result(reply.status)
    }
}

/// Converts 16-bit samples to floating point, one for one. `T` is the floating point type. Nothing
/// is done for an empty slice.
pub fn short_to_float<T, F>(src: &[i16], call: F) -> (r: Vec<T>)
    where
        F: FnOnce(&[i16], i32) -> Vec<T>,
    requires
        src@.len() > 0 ==> call.requires((src, capped(src@.len(), i32::MAX as nat) as i32)),
        forall|s: &[i16], n: i32, v: Vec<T>| #[trigger]
            call.ensures((s, n), v) ==> v@.len() == s@.len(),
    ensures
        r@.len() == src@.len(),
        src@.len() > 0 ==> call.ensures((src, capped(src@.len(), i32::MAX as nat) as i32), r),
{
    if src.len() == 0 {
        return Vec::new();
    }
    let len: i32 = count_i32(src.len());
    call(src, len)
}

/// Converts floating point samples to 16 bits, one for one. `T` is the floating point type. Nothing
/// is done for an empty slice.
pub fn float_to_short<T, F>(src: &[T], call: F) -> (r: Vec<i16>)
    where
        F: FnOnce(&[T], usize) -> Vec<i16>,
    requires
        src@.len() > 0 ==> call.requires((src, src@.len() as usize)),
        forall|s: &[T], n: usize, v: Vec<i16>| #[trigger]
            call.ensures((s, n), v) ==> v@.len() == s@.len(),
    ensures
        r@.len() == src@.len(),
        src@.len() > 0 ==> call.ensures((src, src@.len() as usize), r),
{
    if src.len() == 0 {
        return Vec::new();
    }
    let len: usize = src.len();
    call(src, len)
}

/// Converts 8-bit samples to floating point, one for one. `T` is the floating point type. Nothing
/// is done for an empty slice.
pub fn char_to_float<T, F>(src: &[u8], call: F) -> (r: Vec<T>)
    where
        F: FnOnce(&[u8], i32) -> Vec<T>,
    requires
        src@.len() > 0 ==> call.requires((src, capped(src@.len(), i32::MAX as nat) as i32)),
        forall|s: &[u8], n: i32, v: Vec<T>| #[trigger]
            call.ensures((s, n), v) ==> v@.len() == s@.len(),
    ensures
        r@.len() == src@.len(),
        src@.len() > 0 ==> call.ensures((src, capped(src@.len(), i32::MAX as nat) as i32), r),
{
    if src.len() == 0 {
        return Vec::new();
    }
    let len: i32 = count_i32(src.len());
    call(src, len)
}

/// Converts floating point samples to 8 bits, one for one. `T` is the floating point type. Nothing
/// is done for an empty slice.
pub fn float_to_char<T, F>(src: &[T], call: F) -> (r: Vec<u8>)
    where
        F: FnOnce(&[T], i32) -> Vec<u8>,
    requires
        src@.len() > 0 ==> call.requires((src, capped(src@.len(), i32::MAX as nat) as i32)),
        forall|s: &[T], n: i32, v: Vec<u8>| #[trigger]
            call.ensures((s, n), v) ==> v@.len() == s@.len(),
    ensures
        r@.len() == src@.len(),
        src@.len() > 0 ==> call.ensures((src, capped(src@.len(), i32::MAX as nat) as i32), r),
{
    if src.len() == 0 {
        return Vec::new();
    }
    let len: i32 = count_i32(src.len());
    call(src, len)
}

/// Swaps the bytes of every sample in place. Nothing is done for an empty slice.
pub fn swap_linear<F>(buf: &mut [i16], call: F)
    where
        F: FnOnce(&[i16], i32) -> Vec<i16>,
    requires
        old(buf)@.len() > 0 ==> forall|s: &[i16]|
            #![trigger call.requires((s, capped(old(buf)@.len(), i32::MAX as nat) as i32))]
            s@ == old(buf)@ ==> call.requires((s, capped(old(buf)@.len(), i32::MAX as nat) as i32)),
        forall|a: &[i16], b: i32, v: Vec<i16>| #[trigger]
            call.ensures((a, b), v) ==> v@.len() <= a@.len(),
    ensures
        final(buf)@.len() == old(buf)@.len(),
        old(buf)@.len() == 0 ==> final(buf)@ == old(buf)@,
        old(buf)@.len() > 0 ==> exists|s: &[i16], v: Vec<i16>|
            s@ == old(buf)@ && #[trigger] call.ensures(
                (
                    s,
                    capped(old(buf)@.len(), i32::MAX as nat) as i32,
                ),
                v,
            ) && final(buf)@ == v@ + old(buf)@.skip(v@.len() as int),
{
    if buf.len() == 0 {
        return;
    }
    let count: i32 = count_i32(buf.len());
    proof {
        assert(count == capped(old(buf)@.len(), i32::MAX as nat) as i32);
    }
    let samples = call(&*buf, count);
    overwrite_head(buf, &samples);
}

/// Fills `data` with faint noise; a larger divisor makes it fainter. Nothing is done for an empty
/// slice.
pub fn generate_sln_silence<F>(data: &mut [i16], channels: u32, divisor: u32, call: F)
    where
        F: FnOnce(&[i16], u32, u32, u32) -> Vec<i16>,
    requires
        old(data)@.len() > 0 ==> forall|s: &[i16]|
            #![trigger call.requires((s, capped(old(data)@.len(), u32::MAX as nat) as u32, channels,
                divisor))]
            s@ == old(data)@ ==> call.requires((s, capped(old(data)@.len(), u32::MAX as nat) as u32,
                channels, divisor)),
        forall|a: &[i16], b: u32, c: u32, d: u32, v: Vec<i16>| #[trigger]
            call.ensures((a, b, c, d), v) ==> v@.len() <= a@.len(),
    ensures
        final(data)@.len() == old(data)@.len(),
        old(data)@.len() == 0 ==> final(data)@ == old(data)@,
        old(data)@.len() > 0 ==> exists|s: &[i16], v: Vec<i16>|
            s@ == old(data)@ && #[trigger] call.ensures(
                (
                    s,
                    capped(old(data)@.len(), u32::MAX as nat) as u32,
                    channels,
                    divisor,
                ),
                v,
            ) && final(data)@ == v@ + old(data)@.skip(v@.len() as int),
{
    if data.len() == 0 {
        return;
    }
    let count: u32 = count_u32(data.len());
    proof {
        assert(count == capped(old(data)@.len(), u32::MAX as nat) as u32);
    }
    let samples = call(&*data, count, channels, divisor);
    overwrite_head(data, &samples);
}

/// Whether a change of the volume of `data` may be asked for.
pub open spec fn volume_askable<F>(call: F, data: Seq<i16>, vol: i32) -> bool
    where
        F: FnOnce(&[i16], u32, i32) -> Vec<i16>,
{
    &&& data.len() > 0 ==> forall|s: &[i16]|
        s@ == data ==> #[trigger] call.requires((s, capped(data.len(), u32::MAX as nat) as u32, vol))
    &&& forall|s: &[i16], n: u32, k: i32, v: Vec<i16>| #[trigger]
        call.ensures((s, n, k), v) ==> v@.len() <= s@.len()
}

/// Whether `after` is `data` with its volume changed: what the core answers with stands at the head,
/// and an empty slice stays as it is.
pub open spec fn volume_changed<F>(call: F, data: Seq<i16>, vol: i32, after: Seq<i16>) -> bool
    where
        F: FnOnce(&[i16], u32, i32) -> Vec<i16>,
{
    if data.len() == 0 {
        after == data
    } else {
        exists|s: &[i16], v: Vec<i16>|
            s@ == data && #[trigger] call.ensures(
                (s, capped(data.len(), u32::MAX as nat) as u32, vol),
                v,
            ) && after == v@ + data.skip(v@.len() as int)
    }
}

/// Changes the volume in place.
fn scale_volume<F>(data: &mut [i16], vol: i32, call: F)
    where
        F: FnOnce(&[i16], u32, i32) -> Vec<i16>,
    requires
        volume_askable(call, old(data)@, vol),
    ensures
        final(data)@.len() == old(data)@.len(),
        volume_changed(call, old(data)@, vol, final(data)@),
{
    if data.len() == 0 {
        return;
    }
    let count: u32 = count_u32(data.len());
    proof {
        assert(count == capped(old(data)@.len(), u32::MAX as nat) as u32);
    }
    let samples = call(&*data, count, vol);
    overwrite_head(data, &samples);
}

/// Changes the volume in place, by -4 to 4. Nothing is done for an empty slice.
pub fn change_sln_volume<F>(data: &mut [i16], vol: i32, call: F)
    where
        F: FnOnce(&[i16], u32, i32) -> Vec<i16>,
    requires
        volume_askable(call, old(data)@, vol),
    ensures
        final(data)@.len() == old(data)@.len(),
        volume_changed(call, old(data)@, vol, final(data)@),
{
    scale_volume(data, vol, call)
}

/// Changes the volume in place in finer steps, by -12 to 12. Nothing is done for an empty slice.
pub fn change_sln_volume_granular<F>(data: &mut [i16], vol: i32, call: F)
    where
        F: FnOnce(&[i16], u32, i32) -> Vec<i16>,
    requires
        volume_askable(call, old(data)@, vol),
    ensures
        final(data)@.len() == old(data)@.len(),
        volume_changed(call, old(data)@, vol, final(data)@),
{
    scale_volume(data, vol, call)
}

/// Whether a mix of `data` with `other` may be asked for.
pub open spec fn mix_askable<F>(call: F, data: Seq<i16>, other: &[i16], channels: u32) -> bool
    where
        F: FnOnce(&[i16], u32, &[i16], u32, i32) -> (u32, Vec<i16>),
{
    &&& data.len() > 0 ==> forall|s: &[i16]|
        s@ == data ==> #[trigger] call.requires(
            (
                s,
                capped(data.len(), u32::MAX as nat) as u32,
                other,
                capped(other@.len(), u32::MAX as nat) as u32,
                capped(channels as nat, i32::MAX as nat) as i32,
            ),
        )
    &&& forall|a: &[i16], b: u32, c: &[i16], d: u32, e: i32, m: u32, v: Vec<i16>| #[trigger]
        call.ensures((a, b, c, d, e), (m, v)) ==> v@.len() <= a@.len()
}

/// Whether `after` is `data` mixed with `other`, and `total` the number that the core reports: what it
/// answers with stands at the head. An empty slice stays as it is, and the number is zero.
pub open spec fn mixed<F>(
    call: F,
    data: Seq<i16>,
    other: &[i16],
    channels: u32,
    after: Seq<i16>,
    total: u32,
) -> bool
    where
        F: FnOnce(&[i16], u32, &[i16], u32, i32) -> (u32, Vec<i16>),
{
    if data.len() == 0 {
        total == 0 && after == data
    } else {
        exists|s: &[i16], v: Vec<i16>|
            s@ == data && #[trigger] call.ensures(
                (
                    s,
                    capped(data.len(), u32::MAX as nat) as u32,
                    other,
                    capped(other@.len(), u32::MAX as nat) as u32,
                    capped(channels as nat, i32::MAX as nat) as i32,
                ),
                (total, v),
            ) && after == v@ + data.skip(v@.len() as int)
    }
}

/// Mixes two runs of samples in place. Returns the number of samples that the core reports.
fn mix<F>(data: &mut [i16], other: &[i16], channels: u32, call: F) -> (r: u32)
    where
        F: FnOnce(&[i16], u32, &[i16], u32, i32) -> (u32, Vec<i16>),
    requires
        mix_askable(call, old(data)@, other, channels),
    ensures
        final(data)@.len() == old(data)@.len(),
        mixed(call, old(data)@, other, channels, final(data)@, r),
{
    if data.len() == 0 {
        return 0;
    }
    let count: u32 = count_u32(data.len());
    let channel_count: i32 = if channels < i32::MAX as u32 {
        channels as i32
    } else {
        i32::MAX
    };
    let other_count: u32 = count_u32(other.len());
    proof {
        assert(count == capped(old(data)@.len(), u32::MAX as nat) as u32);
        assert(other_count == capped(other@.len(), u32::MAX as nat) as u32);
        assert(channel_count == capped(channels as nat, i32::MAX as nat) as i32);
    }
    let (total, samples) = call(&*data, count, other, other_count, channel_count);
    overwrite_head(data, &samples);
    total
}

/// Mixes `other` into `data` in place. Returns the number of samples that the core reports. Nothing
/// is done for an empty slice.
pub fn merge_sln<F>(data: &mut [i16], other: &[i16], channels: u32, call: F) -> (r: u32)
    where
        F: FnOnce(&[i16], u32, &[i16], u32, i32) -> (u32, Vec<i16>),
    requires
        mix_askable(call, old(data)@, other, channels),
    ensures
        final(data)@.len() == old(data)@.len(),
        mixed(call, old(data)@, other, channels, final(data)@, r),
{
    mix(data, other, channels, call)
}

/// Takes `other` out of `data` in place. Returns the number of samples that the core reports.
/// Nothing is done for an empty slice.
pub fn unmerge_sln<F>(data: &mut [i16], other: &[i16], channels: u32, call: F) -> (r: u32)
    where
        F: FnOnce(&[i16], u32, &[i16], u32, i32) -> (u32, Vec<i16>),
    requires
        mix_askable(call, old(data)@, other, channels),
    ensures
        final(data)@.len() == old(data)@.len(),
        mixed(call, old(data)@, other, channels, final(data)@, r),
{
    mix(data, other, channels, call)
}

/// Changes the number of interleaved channels in place. Nothing is done for an empty slice.
pub fn mux_channels<F>(data: &mut [i16], orig_channels: u32, channels: u32, call: F)
    where
        F: FnOnce(&[i16], usize, u32, u32) -> Vec<i16>,
    requires
        old(data)@.len() > 0 ==> forall|s: &[i16]|
            #![trigger call.requires((s, old(data)@.len() as usize, orig_channels, channels))]
            s@ == old(data)@ ==> call.requires((s, old(data)@.len() as usize, orig_channels,
                channels)),
        forall|a: &[i16], b: usize, c: u32, d: u32, v: Vec<i16>| #[trigger]
            call.ensures((a, b, c, d), v) ==> v@.len() <= a@.len(),
    ensures
        final(data)@.len() == old(data)@.len(),
        old(data)@.len() == 0 ==> final(data)@ == old(data)@,
        old(data)@.len() > 0 ==> exists|s: &[i16], v: Vec<i16>|
            s@ == old(data)@ && #[trigger] call.ensures(
                (
                    s,
                    old(data)@.len() as usize,
                    orig_channels,
                    channels,
                ),
                v,
            ) && final(data)@ == v@ + old(data)@.skip(v@.len() as int),
{
    if data.len() == 0 {
        return;
    }
    let count: usize = data.len();
    proof {
        assert(count == old(data)@.len() as usize);
    }
    let samples = call(&*data, count, orig_channels, channels);
    overwrite_head(data, &samples);
}

/// A resampler's room is no less than 8192 and no less than what was worked out, and no more than the
/// larger of the two. Nothing is worked out from a rate of zero.
pub proof fn room_is_the_larger<S>(scale: S, to_rate: u32, from_rate: u32, srclen: u32, n: u32) where
    S: FnOnce(u32, u32, u32) -> u32,

    ensures
        clamp_room(n) >= 8192,
        clamp_room(n) >= n,
        clamp_room(n) == 8192 || clamp_room(n) == n,
        from_rate == 0 ==> (room_is(scale, to_rate, from_rate, srclen, n) <==> n == 0),
        from_rate != 0 ==> (room_is(scale, to_rate, from_rate, srclen, n) <==> scale.ensures(
            (to_rate, from_rate, srclen),
            n,
        )),
{
}

/// The messages name what they complain of: the two rates in their order, the quality with its sign, and
/// the status of an error.
pub proof fn messages_say_their_numbers(from_rate: u32, to_rate: u32, quality: i32, e: SwitchError)
    ensures
        exists|from: Seq<char>, to: Seq<char>|
            #![trigger number_read(from), number_read(to)]
            number_read(from) == from_rate && number_read(to) == to_rate && bad_rates(
                from_rate,
                to_rate,
            ) == "Invalid sample rates: from="@ + from + ", to="@ + to,
        exists|size: Seq<char>|
            #![trigger number_read(size)]
            number_read(size) == (if quality < 0 {
                -quality
            } else {
                quality as int
            }) && bad_quality(quality) == "Invalid quality "@ + (if quality < 0 {
                seq!['-'] + size
            } else {
                size
            }) + ": must be 0-10"@,
        exists|status: Seq<char>|
            #![trigger number_read(status)]
            number_read(status) == e.0.0 && create_failed(e)
                == "switch_resample_perform_create failed: "@ + ("SwitchError(Status("@ + status
                + "))"@) && reset_failed(e) == "StreamingResample::reset failed ("@ + (
            "SwitchError(Status("@ + status + "))"@) + "); keeping old handle"@,
{
    decimal_reads_as_the_number(from_rate as nat);
    decimal_reads_as_the_number(to_rate as nat);
    decimal_reads_as_the_number(e.0.0 as nat);
    if quality < 0 {
        decimal_reads_as_the_number((-quality) as nat);
    } else {
        decimal_reads_as_the_number(quality as nat);
    }
}

} // verus!
