//! The bitrate budget: pure arithmetic deriving the minimum deliverable
//! output size and the video bitrate that fits a requested size.
//!
//! All arithmetic is exact fixed point.  A duration is a count of
//! milliseconds, a bitrate a count of milli-kilobits per second (one
//! thousandth of a kilobit per second), and a size a count of micro-
//! megabytes (one millionth of a megabyte).  In those units the two
//! budget formulas reduce to exact integer expressions:
//!
//! * the audio track alone occupies `audio * duration / 8192` micro-MB,
//!   since kilobit-seconds divided by 8192 give megabytes;
//! * a target of `t` micro-MB over `d` milliseconds leaves
//!   `t * 15625 / (2 * d) - audio` milli-kbps for video, since the
//!   encoder's megabyte convention carries a factor of 1.048576
//!   (= 2^20 / 10^6), and 8192 * 10^6 / 1048576 = 15625 / 2.

use vstd::prelude::*;
use vstd::arithmetic::div_mod::{lemma_div_is_ordered, lemma_div_is_ordered_by_denominator};
use vstd::arithmetic::mul::{lemma_mul_inequality, lemma_mul_nonnegative};

verus! {

/// Largest accepted value for each fixed-point input; keeps every
/// intermediate product inside `u64`.
pub const MAX_BUDGET_INPUT: u64 = 0xFFFF_FFFF;

/// Size of the audio track alone, in micro-MB: the floor below which no
/// positive video bitrate can push the output.
pub open spec fn spec_min_size_micro_mb(audio_milli_kbps: int, duration_ms: int) -> int {
    (audio_milli_kbps * duration_ms) / 8192
}

/// Video bitrate, in milli-kbps, that fills a target of
/// `target_micro_mb` over `duration_ms` once the audio share is taken
/// out.  Negative when the target lies under the audio floor.
pub open spec fn spec_video_rate_milli_kbps(
    target_micro_mb: int,
    duration_ms: int,
    audio_milli_kbps: int,
) -> int {
    (target_micro_mb * 15625) / (2 * duration_ms) - audio_milli_kbps
}

/// Minimum deliverable size: what the output would weigh with the video
/// bitrate driven to zero.  Arguments and result are fixed point
/// (milli-kbps, milliseconds, micro-MB).
pub fn get_target_size(audio_rate: u64, duration: u64) -> (r: u64)
    requires
        audio_rate <= MAX_BUDGET_INPUT,
        duration <= MAX_BUDGET_INPUT,
    ensures
        r == spec_min_size_micro_mb(audio_rate as int, duration as int),
{
    proof {
        lemma_mul_inequality(audio_rate as int, MAX_BUDGET_INPUT as int, duration as int);
        lemma_mul_inequality(duration as int, MAX_BUDGET_INPUT as int, MAX_BUDGET_INPUT as int);
    }
    let product: u64 = audio_rate * duration;
    product / 8192
}

/// The size gate: true when the floor lies strictly under the
/// requested size, so re-encoding has room to shrink the file; on
/// equality it is false and no encode should start.
pub fn is_minsize(min_size: u64, size: u64) -> (r: bool)
    ensures
        r == (min_size < size),
{
    min_size < size
}

/// Video bitrate, in milli-kbps, left for a target of `size` micro-MB
/// over `duration` milliseconds after `audio_rate` milli-kbps of audio.
/// May be negative; callers gate on the minimum size first.
pub fn get_target_video_rate(size: u64, duration: u64, audio_rate: u64) -> (r: i64)
    requires
        size <= MAX_BUDGET_INPUT,
        1 <= duration <= MAX_BUDGET_INPUT,
        audio_rate <= MAX_BUDGET_INPUT,
    ensures
        r == spec_video_rate_milli_kbps(size as int, duration as int, audio_rate as int),
{
    proof {
        lemma_mul_inequality(size as int, MAX_BUDGET_INPUT as int, 15625);
    }
    let numerator: u64 = size * 15625;
    let denominator: u64 = 2 * duration;
    let quotient: u64 = numerator / denominator;
    proof {
        lemma_div_is_ordered(
            numerator as int,
            MAX_BUDGET_INPUT as int * 15625,
            denominator as int,
        );
    }
    quotient as i64 - audio_rate as i64
}

/// Law: the minimum deliverable size never shrinks when the audio rate
/// or the duration grows.
pub proof fn lemma_min_size_monotone(a1: int, d1: int, a2: int, d2: int)
    requires
        0 <= a1 <= a2,
        0 <= d1 <= d2,
    ensures
        spec_min_size_micro_mb(a1, d1) <= spec_min_size_micro_mb(a2, d2),
{
    lemma_mul_inequality(a1, a2, d1);
    lemma_mul_inequality(d1, d2, a2);
    lemma_div_is_ordered(a1 * d1, a2 * d2, 8192);
}

/// Law: the video bitrate budget never shrinks when the target size
/// grows, the other inputs held fixed.
pub proof fn lemma_video_rate_monotone_in_target(t1: int, t2: int, d: int, a: int)
    requires
        0 <= t1 <= t2,
        1 <= d,
    ensures
        spec_video_rate_milli_kbps(t1, d, a) <= spec_video_rate_milli_kbps(t2, d, a),
{
    lemma_mul_inequality(t1, t2, 15625);
    lemma_div_is_ordered(t1 * 15625, t2 * 15625, 2 * d);
}

/// Law: the video bitrate budget never grows when the duration grows,
/// the other inputs held fixed.
pub proof fn lemma_video_rate_antitone_in_duration(t: int, d1: int, d2: int, a: int)
    requires
        0 <= t,
        1 <= d1 <= d2,
    ensures
        spec_video_rate_milli_kbps(t, d2, a) <= spec_video_rate_milli_kbps(t, d1, a),
{
    lemma_mul_nonnegative(t, 15625);
    lemma_div_is_ordered_by_denominator(t * 15625, 2 * d1, 2 * d2);
}

/// Law: the video bitrate budget never grows when the audio rate grows,
/// the other inputs held fixed.
pub proof fn lemma_video_rate_antitone_in_audio(t: int, d: int, a1: int, a2: int)
    requires
        a1 <= a2,
        1 <= d,
    ensures
        spec_video_rate_milli_kbps(t, d, a2) <= spec_video_rate_milli_kbps(t, d, a1),
{
}

} // verus!
