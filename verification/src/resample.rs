//! Nearest-neighbour conversion of a recording to the 16 kHz mono form
//! that recognition takes.

use vstd::prelude::*;
use vstd::arithmetic::div_mod::{lemma_div_by_multiple, lemma_div_denominator};

verus! {

/// The sample rate of every frame that leaves the recorder, in Hz.
pub const TARGET_SAMPLE_RATE: u32 = 16_000;

/// How many samples a recording of `len` samples at `source_rate` Hz has
/// once it is brought to the target rate.
pub open spec fn resampled_len(len: nat, source_rate: nat) -> nat {
    (len * 16_000) / source_rate
}

/// The place in the source of the sample that output sample `i` is taken
/// from.
pub open spec fn source_index(i: nat, source_rate: nat) -> nat {
    (i * source_rate) / 16_000
}

/// Whether output sample `i` is mixed from two neighbouring source samples:
/// with two channels, wherever the source still holds the neighbour.
pub open spec fn is_mixed(i: nat, len: nat, source_rate: nat, channels: nat) -> bool {
    channels == 2 && source_index(i, source_rate) + 1 < len
}

/// Whether `out` is `data` brought to the target rate: each output sample
/// is the source sample at its source index, or, for a two-channel source,
/// what `mix` makes of that sample and its neighbour.
pub open spec fn is_resampled<T, F: Fn(T, T) -> T>(
    out: Seq<T>,
    data: Seq<T>,
    source_rate: nat,
    channels: nat,
    mix: F,
) -> bool {
    &&& out.len() == resampled_len(data.len(), source_rate)
    &&& forall|i: int|
        0 <= i < out.len() ==> {
            let k = source_index(i as nat, source_rate) as int;
            if is_mixed(i as nat, data.len(), source_rate, channels) {
                call_ensures(mix, (data[k], data[k + 1]), #[trigger] out[i])
            } else {
                out[i] == data[k]
            }
        }
}

/// Whether `mix` accepts every pair of neighbouring samples of `data`.
pub open spec fn mixes_neighbours<T, F: Fn(T, T) -> T>(data: Seq<T>, mix: F) -> bool {
    forall|k: int| 0 <= k && k + 1 < data.len() ==> call_requires(mix, (#[trigger] data[k], data[k + 1]))
}

/// Every output sample is taken from inside the source: nothing has to be
/// dropped at the end and nothing is padded.
pub proof fn lemma_source_index_in_range(i: nat, len: nat, source_rate: nat)
    requires
        source_rate > 0,
        i < resampled_len(len, source_rate),
    ensures
        source_index(i, source_rate) < len,
{
    let n = (len * 16_000) as int;
    let r = source_rate as int;
    let q = n / r;
    assert((i + 1) * r <= n) by (nonlinear_arith)
        requires
            r > 0,
            0 <= i + 1 <= q,
            q == n / r,
            n >= 0,
    ;
    assert((i * r) / 16_000 < len) by (nonlinear_arith)
        requires
            (i + 1) * r <= len * 16_000,
            r > 0,
            i >= 0,
    ;
}

/// A recording at the target rate or above never comes out longer than
/// it went in, so that its frame fits wherever the recording fits.
pub proof fn lemma_downsampling_never_grows(len: nat, source_rate: nat)
    requires
        source_rate >= 16_000,
    ensures
        resampled_len(len, source_rate) <= len,
{
    let scaled = len * 16_000;
    assert(scaled / source_rate <= len) by (nonlinear_arith)
        requires
            scaled == len * 16_000,
            source_rate >= 16_000,
    ;
}

/// A recording at 48 kHz comes out with a third of its samples, rounded
/// down.
pub proof fn lemma_resampled_len_from_48k(len: nat)
    ensures
        resampled_len(len, 48_000) == len / 3,
{
    lemma_div_denominator((len * 16_000) as int, 16_000, 3);
    lemma_div_by_multiple(len as int, 16_000);
}

/// A recording that is already at the target rate keeps its length, and
/// each output sample is taken from its own place.
pub proof fn lemma_target_rate_is_kept(len: nat, i: nat)
    ensures
        resampled_len(len, 16_000) == len,
        source_index(i, 16_000) == i,
{
    lemma_div_by_multiple(len as int, 16_000);
    lemma_div_by_multiple(i as int, 16_000);
}

/// A single-channel recording at the target rate is handed on unchanged.
pub proof fn lemma_mono_at_target_rate_is_identity<T, F: Fn(T, T) -> T>(
    out: Seq<T>,
    data: Seq<T>,
    mix: F,
)
    requires
        is_resampled(out, data, 16_000, 1, mix),
    ensures
        out == data,
{
    lemma_target_rate_is_kept(data.len(), 0);
    assert forall|i: int| 0 <= i < out.len() implies out[i] == data[i] by {
        lemma_target_rate_is_kept(data.len(), i as nat);
    }
    assert(out =~= data);
}

/// Where a sample and its neighbour are equal, and `mix` of two equal
/// samples can only be that sample, the output sample is that sample.
pub proof fn lemma_equal_neighbours_are_kept<T, F: Fn(T, T) -> T>(
    out: Seq<T>,
    data: Seq<T>,
    source_rate: nat,
    channels: nat,
    mix: F,
    i: int,
)
    requires
        is_resampled(out, data, source_rate, channels, mix),
        0 <= i < out.len(),
        is_mixed(i as nat, data.len(), source_rate, channels) ==> {
            let k = source_index(i as nat, source_rate) as int;
            &&& data[k] == data[k + 1]
            &&& forall|r: T| call_ensures(mix, (data[k], data[k]), r) ==> r == data[k]
        },
    ensures
        out[i] == data[source_index(i as nat, source_rate) as int],
{
}

/// A two-channel recording whose left and right samples all hold the one
/// value `x` comes out as single-channel samples that all hold `x`,
/// whenever `mix` of `x` and `x` can only be `x`.
pub proof fn lemma_equal_channels_resample_to_themselves<T, F: Fn(T, T) -> T>(
    out: Seq<T>,
    data: Seq<T>,
    source_rate: nat,
    mix: F,
    x: T,
)
    requires
        source_rate > 0,
        is_resampled(out, data, source_rate, 2, mix),
        forall|k: int| 0 <= k < data.len() ==> data[k] == x,
        forall|r: T| call_ensures(mix, (x, x), r) ==> r == x,
    ensures
        forall|i: int| 0 <= i < out.len() ==> out[i] == x,
{
    assert forall|i: int| 0 <= i < out.len() implies out[i] == x by {
        lemma_source_index_in_range(i as nat, data.len(), source_rate);
        lemma_equal_neighbours_are_kept(out, data, source_rate, 2, mix, i);
    }
}

/// Brings `data`, recorded at `source_rate` Hz with `channels` interleaved
/// channels, to the target rate. Output sample `i` is taken from source
/// index `i * source_rate / 16000`, rounded down; for a two-channel source
/// it is what `mix` makes of the sample there and the one after it.
pub fn resample<T: Copy, F: Fn(T, T) -> T>(
    data: &[T],
    source_rate: u32,
    channels: u16,
    mix: F,
) -> (out: Vec<T>)
    requires
        source_rate > 0,
        resampled_len(data@.len(), source_rate as nat) <= usize::MAX,
        mixes_neighbours(data@, mix),
    ensures
        is_resampled(out@, data@, source_rate as nat, channels as nat, mix),
{
    let len: usize = data.len();
    let rate: u128 = source_rate as u128;
    let new_len: usize = ((len as u128) * 16_000 / rate) as usize;
    let mut out: Vec<T> = Vec::with_capacity(new_len);
    let mut i: usize = 0;
    while i < new_len
        invariant
            len == data@.len(),
            rate == source_rate,
            rate > 0,
            new_len == resampled_len(len as nat, rate as nat),
            i <= new_len,
            out@.len() == i,
            mixes_neighbours(data@, mix),
            forall|j: int|
                0 <= j < i ==> {
                    let k = source_index(j as nat, rate as nat) as int;
                    if is_mixed(j as nat, len as nat, rate as nat, channels as nat) {
                        call_ensures(mix, (data@[k], data@[k + 1]), #[trigger] out@[j])
                    } else {
                        out@[j] == data@[k]
                    }
                },
        decreases new_len - i,
    {
        proof {
            lemma_source_index_in_range(i as nat, len as nat, rate as nat);
            assert(i * rate <= usize::MAX * u32::MAX) by (nonlinear_arith)
                requires
                    0 <= i <= usize::MAX,
                    0 <= rate <= u32::MAX,
            ;
        }
        let index: usize = ((i as u128) * rate / 16_000) as usize;
        let sample = if channels == 2 && index + 1 < len {
            mix(data[index], data[index + 1])
        } else {
            data[index]
        };
        out.push(sample);
        i += 1;
    }
    out
}

} // verus!
