//! The per-block render path.
//!
//! Every render request must leave the host with fully written output:
//! when the engine is usable its interleaved stereo block is
//! de-interleaved into the host's per-channel layout, and when it is not,
//! a deterministic low-amplitude square-wave tone is written instead, so
//! the degraded state is audible and the host never receives stale or
//! unwritten memory.

use vstd::prelude::*;

verus! {

/// Frequency of the fallback tone in cycles per second.
pub const FALLBACK_TONE_HZ: u32 = 440;

/// Peak sample value of the fallback tone: about five percent of the
/// full 16-bit scale, quiet but audible.
pub const FALLBACK_AMPLITUDE: i16 = 1638;

/// The negated peak, named so that spec and body use the same literal.
pub const FALLBACK_AMPLITUDE_NEG: i16 = -1638;

/// Frames per cycle of the fallback tone at the given sample rate, and
/// at least one frame so the tone is defined at any rate.
pub open spec fn tone_period(sample_rate: u32) -> int {
    if sample_rate / FALLBACK_TONE_HZ >= 1 {
        (sample_rate / FALLBACK_TONE_HZ) as int
    } else {
        1
    }
}

/// The fallback tone's sample at frame `i`: a square wave, positive for
/// the first half of each period and negative for the second. It depends
/// on nothing but the sample rate and the frame index, which makes the
/// degraded output reproducible call after call.
pub open spec fn fallback_sample(sample_rate: u32, i: int) -> i16 {
    let period = tone_period(sample_rate);
    if 2 * (i % period) < period {
        FALLBACK_AMPLITUDE
    } else {
        FALLBACK_AMPLITUDE_NEG
    }
}

/// What a finished fallback block looks like: two channels, each exactly
/// `frame_count` samples long, each sample the tone value at its frame
/// index. The output is fully determined by sample rate and frame count.
pub open spec fn fallback_output_shape(
    sample_rate: u32,
    frame_count: int,
    out: Seq<Seq<i16>>,
) -> bool {
    &&& out.len() == 2
    &&& forall|c: int| 0 <= c < 2 ==> (#[trigger] out[c]).len() == frame_count
    &&& forall|c: int, i: int|
        0 <= c < 2 && 0 <= i < frame_count ==> #[trigger] out[c][i] == fallback_sample(
            sample_rate,
            i,
        )
}

/// Fallback rendering is reproducible: any two outputs that meet the
/// fallback contract for the same sample rate and frame count are equal,
/// sample for sample. Repeated render calls in a degraded state therefore
/// produce identical blocks.
pub proof fn lemma_fallback_reproducible(
    sample_rate: u32,
    frame_count: int,
    a: Seq<Seq<i16>>,
    b: Seq<Seq<i16>>,
)
    requires
        fallback_output_shape(sample_rate, frame_count, a),
        fallback_output_shape(sample_rate, frame_count, b),
    ensures
        a == b,
{
    assert forall|c: int| 0 <= c < 2 implies a[c] =~= b[c] by {
        assert(a[c].len() == frame_count);
        assert(b[c].len() == frame_count);
    }
    assert(a =~~= b);
}

/// One channel of the fallback tone.
pub fn fallback_channel(sample_rate: u32, frame_count: usize) -> (out: Vec<i16>)
    ensures
        out.len() == frame_count,
        forall|i: int| 0 <= i < frame_count ==> #[trigger] out[i] == fallback_sample(
            sample_rate,
            i,
        ),
{
    let period: u32 = if sample_rate / FALLBACK_TONE_HZ >= 1 {
        sample_rate / FALLBACK_TONE_HZ
    } else {
        1
    };
    assert(period == tone_period(sample_rate));
    let mut out: Vec<i16> = Vec::new();
    let mut i: usize = 0;
    while i < frame_count
        invariant
            i <= frame_count,
            out.len() == i,
            period == tone_period(sample_rate),
            1 <= period,
            forall|j: int| 0 <= j < i ==> #[trigger] out[j] == fallback_sample(sample_rate, j),
        decreases frame_count - i,
    {
        let pos: u32 = (i % (period as usize)) as u32;
        let sample: i16 = if 2 * (pos as u64) < (period as u64) {
            FALLBACK_AMPLITUDE
        } else {
            FALLBACK_AMPLITUDE_NEG
        };
        assert(sample == fallback_sample(sample_rate, i as int));
        out.push(sample);
        i = i + 1;
    }
    out
}

/// A full fallback block: the tone written to both output channels.
pub fn fallback_block(sample_rate: u32, frame_count: usize) -> (out: Vec<Vec<i16>>)
    ensures
        fallback_output_shape(sample_rate, frame_count as int, out.deep_view()),
{
    let left = fallback_channel(sample_rate, frame_count);
    let right = fallback_channel(sample_rate, frame_count);
    let mut out: Vec<Vec<i16>> = Vec::new();
    out.push(left);
    out.push(right);
    assert forall|c: int| 0 <= c < 2 implies (#[trigger] out.deep_view()[c]).len()
        == frame_count by {
        assert(out.deep_view()[c] == out[c]@);
    }
    assert forall|c: int, i: int| 0 <= c < 2 && 0 <= i < frame_count implies #[trigger] out
        .deep_view()[c][i] == fallback_sample(sample_rate, i) by {
        assert(out.deep_view()[c] == out[c]@);
    }
    out
}

/// De-interleave one stereo block: sample `i` of output channel `c` is
/// `interleaved[2 * i + c]`, so channel 0 receives the even-indexed
/// (left) samples and channel 1 the odd-indexed (right) ones. Every
/// output sample is copied from the block, whatever it holds: a silent,
/// zeroed block is copied through like any other, never skipped.
pub fn deinterleave_stereo<S: Copy>(interleaved: &Vec<S>, frame_count: usize) -> (out: Vec<
    Vec<S>,
>)
    requires
        interleaved.len() == 2 * frame_count,
    ensures
        out.len() == 2,
        forall|c: int| 0 <= c < 2 ==> (#[trigger] out[c]).len() == frame_count,
        forall|c: int, i: int|
            0 <= c < 2 && 0 <= i < frame_count ==> #[trigger] out[c][i] == interleaved[2 * i + c],
{
    let mut left: Vec<S> = Vec::new();
    let mut right: Vec<S> = Vec::new();
    let mut i: usize = 0;
    while i < frame_count
        invariant
            interleaved.len() == 2 * frame_count,
            i <= frame_count,
            left.len() == i,
            right.len() == i,
            forall|j: int| 0 <= j < i ==> #[trigger] left[j] == interleaved[2 * j],
            forall|j: int| 0 <= j < i ==> #[trigger] right[j] == interleaved[2 * j + 1],
        decreases frame_count - i,
    {
        left.push(interleaved[2 * i]);
        right.push(interleaved[2 * i + 1]);
        i = i + 1;
    }
    let mut out: Vec<Vec<S>> = Vec::new();
    out.push(left);
    out.push(right);
    assert forall|c: int, i: int|
        0 <= c < 2 && 0 <= i < frame_count implies #[trigger] out[c][i] == interleaved[2 * i
        + c] by {
        if c == 0 {
            assert(out[c][i] == interleaved[2 * i]);
        } else {
            assert(out[c][i] == interleaved[2 * i + 1]);
        }
    }
    out
}

} // verus!
