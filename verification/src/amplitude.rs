//! Per-chunk amplitude measurement and the silence test.
//!
//! A level is the amplitude of one sample in thousandths of full scale. The
//! levels of a chunk are measured once, and the chunk counts as silent when
//! both extremes lie strictly inside the band set by the threshold.

use vstd::prelude::*;

verus! {

/// The lowest and the highest level of one chunk.
#[derive(Debug, Clone, Copy, PartialEq, Eq, Structural)]
pub struct AmplitudeRange {
    pub min: i32,
    pub max: i32,
}

/// `m` occurs in `levels` and no level is above it.
pub open spec fn is_peak(levels: Seq<i32>, m: i32) -> bool {
    &&& exists|i: int| 0 <= i < levels.len() && levels[i] == m
    &&& forall|i: int| 0 <= i < levels.len() ==> levels[i] <= m
}

/// `m` occurs in `levels` and no level is below it.
pub open spec fn is_trough(levels: Seq<i32>, m: i32) -> bool {
    &&& exists|i: int| 0 <= i < levels.len() && levels[i] == m
    &&& forall|i: int| 0 <= i < levels.len() ==> levels[i] >= m
}

/// The highest level of a chunk; 0 for a chunk without samples.
pub open spec fn peak(levels: Seq<i32>) -> i32 {
    if levels.len() == 0 {
        0
    } else {
        choose|m: i32| is_peak(levels, m)
    }
}

/// The lowest level of a chunk; 0 for a chunk without samples.
pub open spec fn trough(levels: Seq<i32>) -> i32 {
    if levels.len() == 0 {
        0
    } else {
        choose|m: i32| is_trough(levels, m)
    }
}

/// The extremes of a chunk.
pub open spec fn range_of(levels: Seq<i32>) -> AmplitudeRange {
    AmplitudeRange { min: trough(levels), max: peak(levels) }
}

/// The silence test on the extremes of a chunk: the highest level is under the
/// threshold and the lowest is above its negation.
pub open spec fn silence_detected(range: AmplitudeRange, threshold: int) -> bool {
    range.max < threshold && range.min > -threshold
}

/// Whether a chunk with these levels counts as silent.
pub open spec fn chunk_is_silent(levels: Seq<i32>, threshold: int) -> bool {
    silence_detected(range_of(levels), threshold)
}

/// Every level lies strictly between `-threshold` and `threshold`.
pub open spec fn all_within(levels: Seq<i32>, threshold: int) -> bool {
    forall|i: int| 0 <= i < levels.len() ==> -threshold < #[trigger] levels[i] < threshold
}

/// A value that meets `is_peak` is the peak: there is only one.
pub proof fn lemma_peak_is(levels: Seq<i32>, m: i32)
    requires
        is_peak(levels, m),
    ensures
        peak(levels) == m,
        is_peak(levels, peak(levels)),
{
    let p = choose|p: i32| is_peak(levels, p);
    assert(p <= m && m <= p);
}

/// A value that meets `is_trough` is the trough: there is only one.
pub proof fn lemma_trough_is(levels: Seq<i32>, m: i32)
    requires
        is_trough(levels, m),
    ensures
        trough(levels) == m,
        is_trough(levels, trough(levels)),
{
    let p = choose|p: i32| is_trough(levels, p);
    assert(p <= m && m <= p);
}

/// Every chunk with at least one sample has a peak and a trough among its levels.
pub proof fn lemma_extremes_exist(levels: Seq<i32>)
    requires
        levels.len() > 0,
    ensures
        is_peak(levels, peak(levels)),
        is_trough(levels, trough(levels)),
    decreases levels.len(),
{
    let last = levels.last();
    if levels.len() == 1 {
        lemma_peak_is(levels, last);
        lemma_trough_is(levels, last);
    } else {
        let front = levels.drop_last();
        lemma_extremes_exist(front);
        let hi = if last > peak(front) { last } else { peak(front) };
        let lo = if last < trough(front) { last } else { trough(front) };
        assert forall|i: int| 0 <= i < levels.len() implies lo <= #[trigger] levels[i] <= hi by {
            if i < front.len() {
                assert(front[i] == levels[i]);
            }
        }
        lemma_peak_is(levels, hi);
        lemma_trough_is(levels, lo);
    }
}

/// A chunk is silent exactly when every one of its levels lies strictly inside
/// the band. This holds for every chunk that has a sample, and for the chunk
/// without samples when the threshold is positive: measured as 0, the empty
/// chunk is inside a band only if the band holds 0.
pub proof fn lemma_silent_iff_all_within(levels: Seq<i32>, threshold: int)
    requires
        levels.len() > 0 || threshold > 0,
    ensures
        chunk_is_silent(levels, threshold) <==> all_within(levels, threshold),
{
    if levels.len() > 0 {
        lemma_extremes_exist(levels);
    }
}

/// A chunk in which some level is at or beyond the threshold, in either
/// direction, is not silent.
pub proof fn lemma_loud_sample_breaks_silence(levels: Seq<i32>, threshold: int, i: int)
    requires
        0 <= i < levels.len(),
        levels[i] >= threshold || levels[i] <= -threshold,
    ensures
        !chunk_is_silent(levels, threshold),
{
    lemma_silent_iff_all_within(levels, threshold);
}

/// Measures a chunk in one pass over its levels.
pub fn measure(levels: &Vec<i32>) -> (range: AmplitudeRange)
    ensures
        range == range_of(levels@),
        levels@.len() == 0 ==> range.min == 0 && range.max == 0,
        levels@.len() > 0 ==> is_trough(levels@, range.min) && is_peak(levels@, range.max),
{
    if levels.len() == 0 {
        return AmplitudeRange { min: 0, max: 0 };
    }
    let mut min: i32 = levels[0];
    let mut max: i32 = levels[0];
    let mut i: usize = 1;
    assert(levels@.take(1)[0] == levels@[0]);
    while i < levels.len()
        invariant
            1 <= i <= levels.len(),
            is_trough(levels@.take(i as int), min),
            is_peak(levels@.take(i as int), max),
        decreases levels.len() - i,
    {
        let level: i32 = levels[i];
        proof {
            let seen = levels@.take(i as int);
            let next = levels@.take(i + 1);
            assert(next[i as int] == level);
            assert forall|k: int| 0 <= k < i implies min <= #[trigger] next[k] <= max by {
                assert(seen[k] == next[k]);
            }
        }
        if level > max {
            max = level;
        }
        if level < min {
            min = level;
        }
        i += 1;
    }
    proof {
        assert(levels@.take(i as int) == levels@);
        lemma_peak_is(levels@, max);
        lemma_trough_is(levels@, min);
    }
    AmplitudeRange { min, max }
}

impl AmplitudeRange {
    /// The silence test against a threshold. The negation is taken in a wider
    /// type, so every threshold is accepted.
    pub fn is_silent(&self, threshold: i32) -> (silent: bool)
        ensures
            silent == silence_detected(*self, threshold as int),
    {
        let band: i64 = threshold as i64;
        (self.max as i64) < band && (self.min as i64) > -band
    }
}

} // verus!
