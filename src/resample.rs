//! Linear-interpolation resampling. The index arithmetic is exact
//! integer arithmetic on the two rates; the caller supplies how two
//! neighbouring samples are blended at a given fractional weight,
//! which keeps this module independent of the sample type.

use vstd::prelude::*;

verus! {

/// The rate the recogniser expects, in Hz.
pub const MODEL_RATE: u32 = 16000;

/// Output length when `len` samples at `from` Hz are taken to `to` Hz:
/// `floor(len / (from / to))`.
pub open spec fn resampled_len(len: int, from: int, to: int) -> int {
    (len * to) / from
}

/// The source sample under output sample `i`: `floor(i * from / to)`.
pub open spec fn source_index(i: int, from: int, to: int) -> int {
    (i * from) / to
}

/// The fractional part of output sample `i`'s source position, as a
/// numerator over `to`.
pub open spec fn source_weight(i: int, from: int, to: int) -> int {
    (i * from) % to
}

/// `x` is a correct value for output sample `i` when `src` goes from
/// `from` Hz to `to` Hz: where the source position falls on a sample,
/// or beyond the last pair, it is that source sample itself; anywhere
/// else it is a value `blend` may return for the two neighbours and the
/// weight of the second (a numerator over `to`).
pub open spec fn is_output_sample<T, F: Fn(T, T, u32, u32) -> T>(
    src: Seq<T>,
    i: int,
    x: T,
    from: int,
    to: int,
    blend: F,
) -> bool {
    let k = source_index(i, from, to);
    let w = source_weight(i, from, to);
    &&& 0 <= k < src.len()
    &&& if w == 0 || k + 1 >= src.len() {
        x == src[k]
    } else {
        blend.ensures((src[k], src[k + 1], w as u32, to as u32), x)
    }
}

/// `out` is `src` resampled from `from` Hz to `to` Hz: it has
/// `resampled_len` samples, each a correct output sample.
pub open spec fn is_resampling<T, F: Fn(T, T, u32, u32) -> T>(
    src: Seq<T>,
    out: Seq<T>,
    from: int,
    to: int,
    blend: F,
) -> bool {
    &&& out.len() == resampled_len(src.len() as int, from, to)
    &&& forall|i: int|
        0 <= i < out.len() ==> is_output_sample(src, i, #[trigger] out[i], from, to, blend)
}

proof fn lemma_source_in_range(i: int, len: int, from: int, to: int)
    requires
        0 < from,
        0 < to,
        0 <= len,
        0 <= i < resampled_len(len, from, to),
    ensures
        0 <= source_index(i, from, to) < len,
        0 <= source_weight(i, from, to) < to,
{
    // i < floor(len * to / from) gives (i + 1) * from <= len * to.
    assert((i + 1) * from <= len * to) by (nonlinear_arith)
        requires
            0 < from,
            i < (len * to) / from,
            0 <= i,
            0 <= len,
            0 < to,
    {
        assert(len * to == from * ((len * to) / from) + (len * to) % from);
        assert(0 <= (len * to) % from);
        assert(i + 1 <= (len * to) / from);
        assert(from * (i + 1) <= from * ((len * to) / from));
    }
    assert(0 <= (i * from) / to < len) by (nonlinear_arith)
        requires
            (i + 1) * from <= len * to,
            0 < from,
            0 < to,
            0 <= i,
    {
        assert(i * from == to * ((i * from) / to) + (i * from) % to);
        assert(0 <= (i * from) % to < to);
        assert(i * from < len * to);
        assert(to * ((i * from) / to) <= i * from);
        assert(to * ((i * from) / to) < to * len);
    }
    assert(0 <= (i * from) % to < to) by (nonlinear_arith)
        requires
            0 < to,
            0 <= i,
            0 < from,
    ;
}

/// At equal rates every output sample sits exactly on its source
/// sample.
proof fn lemma_equal_rate_positions(i: int, rate: int)
    requires
        rate > 0,
        0 <= i,
    ensures
        source_index(i, rate, rate) == i,
        source_weight(i, rate, rate) == 0,
{
    assert((i * rate) / rate == i && (i * rate) % rate == 0) by (nonlinear_arith)
        requires
            rate > 0,
            0 <= i,
    {
        vstd::arithmetic::div_mod::lemma_fundamental_div_mod_converse(i * rate, rate, i, 0);
    }
}

/// A capture is its own resampling to the rate it already has.
pub proof fn lemma_identity_is_resampling<T, F: Fn(T, T, u32, u32) -> T>(
    src: Seq<T>,
    rate: int,
    blend: F,
)
    requires
        rate > 0,
    ensures
        is_resampling(src, src, rate, rate, blend),
{
    lemma_equal_rate_positions(src.len() as int, rate);
    assert forall|i: int| 0 <= i < src.len() implies source_index(i, rate, rate) == i
        && source_weight(i, rate, rate) == 0 by {
        lemma_equal_rate_positions(i, rate);
    }
}

/// Resampling to the rate the samples already have gives them back
/// exactly, sample for sample.
pub proof fn lemma_same_rate_is_identity<T, F: Fn(T, T, u32, u32) -> T>(
    src: Seq<T>,
    out: Seq<T>,
    rate: int,
    blend: F,
)
    requires
        rate > 0,
        is_resampling(src, out, rate, rate, blend),
    ensures
        out == src,
{
    lemma_equal_rate_positions(src.len() as int, rate);
    assert forall|i: int| 0 <= i < out.len() implies out[i] == src[i] by {
        lemma_equal_rate_positions(i, rate);
    }
    assert(out =~= src);
}

/// Halving the rate keeps every second sample: the output is half as
/// long (rounded down) and sample `i` is source sample `2 * i`.
pub proof fn lemma_half_rate_decimates<T, F: Fn(T, T, u32, u32) -> T>(
    src: Seq<T>,
    out: Seq<T>,
    to: int,
    blend: F,
)
    requires
        to > 0,
        is_resampling(src, out, 2 * to, to, blend),
    ensures
        out.len() == src.len() / 2,
        forall|i: int| 0 <= i < out.len() ==> out[i] == src[2 * i],
{
    let len = src.len() as int;
    assert((len * to) / (2 * to) == len / 2) by (nonlinear_arith)
        requires
            to > 0,
            len >= 0,
    {
        vstd::arithmetic::div_mod::lemma_div_denominator(len * to, to, 2);
        vstd::arithmetic::div_mod::lemma_fundamental_div_mod_converse(len * to, to, len, 0);
    }
    assert forall|i: int| 0 <= i < out.len() implies out[i] == src[2 * i] by {
        assert((i * (2 * to)) / to == 2 * i && (i * (2 * to)) % to == 0) by (nonlinear_arith)
            requires
                to > 0,
                0 <= i,
        {
            vstd::arithmetic::div_mod::lemma_fundamental_div_mod_converse(i * (2 * to), to, 2 * i, 0);
        }
    }
}

/// Resamples `samples` from `from_rate` Hz to `to_rate` Hz by linear
/// interpolation: output sample `i` reads source position
/// `i * from_rate / to_rate` and blends the two samples around it by
/// the fractional part; where there is no following sample, the last
/// one is taken as is.
pub fn resample<T: Copy, F: Fn(T, T, u32, u32) -> T>(
    samples: &[T],
    from_rate: u32,
    to_rate: u32,
    blend: &F,
) -> (r: Vec<T>)
    requires
        from_rate > 0,
        to_rate > 0,
        resampled_len(samples@.len() as int, from_rate as int, to_rate as int) <= usize::MAX,
        forall|a: T, b: T, w: u32| w < to_rate ==> blend.requires((a, b, w, to_rate)),
    ensures
        is_resampling(samples@, r@, from_rate as int, to_rate as int, *blend),
{
    let len = samples.len();
    proof {
        let l = len as int;
        let t = to_rate as int;
        assert(0 <= l * t <= 0xffff_ffff_ffff_ffff * 0xffff_ffff) by (nonlinear_arith)
            requires
                0 <= l <= 0xffff_ffff_ffff_ffff,
                0 <= t <= 0xffff_ffff,
        ;
    }
    let new_len = ((len as u128) * (to_rate as u128) / (from_rate as u128)) as usize;
    let mut result: Vec<T> = Vec::new();
    let mut i: usize = 0;
    while i < new_len
        invariant
            samples@.len() == len,
            new_len == resampled_len(len as int, from_rate as int, to_rate as int),
            0 < from_rate,
            0 < to_rate,
            i <= new_len,
            result@.len() == i,
            forall|a: T, b: T, w: u32| w < to_rate ==> blend.requires((a, b, w, to_rate)),
            forall|j: int|
                0 <= j < i ==> is_output_sample(
                    samples@,
                    j,
                    #[trigger] result@[j],
                    from_rate as int,
                    to_rate as int,
                    *blend,
                ),
        decreases new_len - i,
    {
        proof {
            lemma_source_in_range(i as int, len as int, from_rate as int, to_rate as int);
        }
        proof {
            let ii = i as int;
            let f = from_rate as int;
            assert(0 <= ii * f <= 0xffff_ffff_ffff_ffff * 0xffff_ffff) by (nonlinear_arith)
                requires
                    0 <= ii <= 0xffff_ffff_ffff_ffff,
                    0 <= f <= 0xffff_ffff,
            ;
        }
        let pos: u128 = (i as u128) * (from_rate as u128);
        let idx = (pos / (to_rate as u128)) as usize;
        let weight = (pos % (to_rate as u128)) as u32;
        let sample = if weight == 0 || idx + 1 >= len {
            samples[idx]
        } else {
            blend(samples[idx], samples[idx + 1], weight, to_rate)
        };
        let ghost prev = result@;
        result.push(sample);
        assert(is_output_sample(samples@, i as int, sample, from_rate as int, to_rate as int, *blend));
        assert forall|j: int| 0 <= j < i + 1 implies #[trigger] result@[j] == if j < i {
            prev[j]
        } else {
            sample
        } by {}
        i += 1;
    }
    assert(result@.len() == resampled_len(samples@.len() as int, from_rate as int, to_rate as int));
    result
}

/// Takes a finished capture at the device's `native_rate` to the
/// recogniser's rate: unchanged when the rates agree, resampled
/// otherwise.
pub fn to_model_rate<T: Copy, F: Fn(T, T, u32, u32) -> T>(
    samples: Vec<T>,
    native_rate: u32,
    blend: &F,
) -> (r: Vec<T>)
    requires
        native_rate > 0,
        resampled_len(samples@.len() as int, native_rate as int, MODEL_RATE as int) <= usize::MAX,
        forall|a: T, b: T, w: u32| w < MODEL_RATE ==> blend.requires((a, b, w, MODEL_RATE)),
    ensures
        is_resampling(samples@, r@, native_rate as int, MODEL_RATE as int, *blend),
        native_rate == MODEL_RATE ==> r@ == samples@,
{
    if native_rate == MODEL_RATE {
        proof {
            assert(MODEL_RATE == 16000);
            lemma_identity_is_resampling(samples@, native_rate as int, *blend);
        }
        samples
    } else {
        resample(samples.as_slice(), native_rate, MODEL_RATE, blend)
    }
}

} // verus!
