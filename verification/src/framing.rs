//! Framing of a finished utterance for the denoiser.
//!
//! The denoiser works on frames of a fixed size. An utterance is cut into
//! consecutive full frames, and what is left over at the end is dropped. Of
//! the processed frames the first is the denoiser's warm-up and is discarded;
//! the others are joined in order.

use vstd::prelude::*;
use vstd::arithmetic::div_mod::{lemma_fundamental_div_mod, lemma_fundamental_div_mod_converse};
use vstd::arithmetic::mul::{lemma_mul_inequality, lemma_mul_is_commutative, lemma_mul_is_distributive_add};

verus! {

/// Frame `k` of `samples`: the `frame_size` samples from place `k * frame_size` on.
pub open spec fn frame_at<T>(samples: Seq<T>, frame_size: int, k: int) -> Seq<T> {
    samples.subrange(k * frame_size, (k + 1) * frame_size)
}

/// How many full frames `len` samples hold.
pub open spec fn frame_count(len: nat, frame_size: int) -> nat {
    (len as int / frame_size) as nat
}

/// The consecutive full frames of `samples`. A shorter rest is in none of them.
pub open spec fn frames_of<T>(samples: Seq<T>, frame_size: int) -> Seq<Seq<T>> {
    Seq::new(frame_count(samples.len(), frame_size), |k: int| frame_at(samples, frame_size, k))
}

/// What each of the frames holds.
pub open spec fn frame_views<T>(frames: Seq<Vec<T>>) -> Seq<Seq<T>> {
    Seq::new(frames.len(), |k: int| frames[k]@)
}

/// The processed frames joined in order, without the first.
pub open spec fn after_warm_up<T>(outputs: Seq<Seq<T>>) -> Seq<T> {
    if outputs.len() == 0 {
        Seq::empty()
    } else {
        outputs.skip(1).flatten()
    }
}

/// The frame size of the denoiser in use.
pub open spec fn denoiser_frame_size() -> int {
    480
}

/// Reads `nnnoiseless::DenoiseState::FRAME_SIZE`, the number of samples that
/// the denoiser takes at a time. The crate defines it as `120 << 2`; that it
/// is 480 is taken on trust.
#[verifier::external_body]
fn frame_size_of_denoiser() -> (size: usize)
    ensures
        size == denoiser_frame_size(),
{
    nnnoiseless::DenoiseState::FRAME_SIZE
}

/// Every full frame lies within the samples.
proof fn lemma_frames_fit(len: nat, frame_size: int, k: int)
    requires
        frame_size > 0,
        0 <= k < frame_count(len, frame_size),
    ensures
        0 <= k * frame_size,
        (k + 1) * frame_size <= len,
        (k + 1) * frame_size == k * frame_size + frame_size,
{
    let len = len as int;
    lemma_fundamental_div_mod(len, frame_size);
    lemma_mul_inequality(k + 1, len / frame_size, frame_size);
    lemma_mul_is_commutative(frame_size, len / frame_size);
    lemma_mul_is_distributive_add(frame_size, k, 1);
    lemma_mul_is_commutative(frame_size, k);
    lemma_mul_is_commutative(frame_size, k + 1);
    lemma_mul_inequality(0, k, frame_size);
}

/// Place `p` among `count` frames of one size lies in frame `p / frame_size`,
/// at place `p % frame_size` of it.
pub proof fn lemma_place_in_frames(p: int, count: nat, frame_size: int)
    requires
        frame_size > 0,
    ensures
        0 <= p < count * frame_size ==> 0 <= p / frame_size < count && 0 <= p % frame_size
            < frame_size,
{
    if 0 <= p < count * frame_size {
        lemma_fundamental_div_mod(p, frame_size);
        lemma_mul_is_commutative(frame_size, p / frame_size);
        if p / frame_size >= count {
            lemma_mul_inequality(count as int, p / frame_size, frame_size);
        }
        if p / frame_size < 0 {
            lemma_mul_inequality(p / frame_size, -1, frame_size);
        }
    }
}

/// Frames of one size, joined: the length is the number of frames times the
/// size, and the sample at place `p` is sample `p % frame_size` of frame
/// `p / frame_size`.
pub proof fn lemma_joined_frames<T>(frames: Seq<Seq<T>>, frame_size: int)
    requires
        frame_size > 0,
        forall|n: int| 0 <= n < frames.len() ==> (#[trigger] frames[n]).len() == frame_size,
    ensures
        frames.flatten().len() == frames.len() * frame_size,
        forall|p: int|
            0 <= p < frames.len() * frame_size ==> (#[trigger] frames.flatten()[p]) == frames[p
                / frame_size][p % frame_size],
    decreases frames.len(),
{
    if frames.len() == 0 {
        assert(frames.len() * frame_size == 0) by (nonlinear_arith)
            requires
                frames.len() == 0,
        ;
    } else {
        let front = frames.drop_last();
        let last = frames.last();
        lemma_joined_frames(front, frame_size);
        assert(frames =~= front.push(last));
        front.lemma_flatten_push(last);
        lemma_mul_is_distributive_add(frame_size, front.len() as int, 1);
        lemma_mul_is_commutative(frame_size, front.len() as int);
        lemma_mul_is_commutative(frame_size, frames.len() as int);
        assert forall|p: int| 0 <= p < frames.len() * frame_size implies (#[trigger] frames.flatten()[p])
            == frames[p / frame_size][p % frame_size] by {
            lemma_place_in_frames(p, front.len(), frame_size);
            if p >= front.len() * frame_size {
                lemma_fundamental_div_mod_converse(
                    p,
                    frame_size,
                    front.len() as int,
                    p - front.len() * frame_size,
                );
            }
        }
    }
}

/// The warm-up costs one frame: of processed frames of `frame_size` samples
/// each, what is left has the samples of all frames but the first, and they
/// are those of the frames from the second on, in order. Nothing of the first
/// processed frame is among them.
pub proof fn lemma_warm_up_costs_one_frame<T>(outputs: Seq<Seq<T>>, frame_size: int)
    requires
        frame_size > 0,
        outputs.len() >= 1,
        forall|n: int| 0 <= n < outputs.len() ==> (#[trigger] outputs[n]).len() == frame_size,
    ensures
        after_warm_up(outputs).len() == (outputs.len() - 1) * frame_size,
        forall|p: int|
            0 <= p < (outputs.len() - 1) * frame_size ==> (#[trigger] after_warm_up(outputs)[p])
                == outputs[1 + p / frame_size][p % frame_size],
{
    let rest = outputs.skip(1);
    assert forall|n: int| 0 <= n < rest.len() implies (#[trigger] rest[n]).len() == frame_size by {
        assert(rest[n] == outputs[n + 1]);
    }
    lemma_joined_frames(rest, frame_size);
    assert forall|p: int| 0 <= p < (outputs.len() - 1) * frame_size implies (#[trigger] after_warm_up(
        outputs,
    )[p]) == outputs[1 + p / frame_size][p % frame_size] by {
        lemma_place_in_frames(p, rest.len(), frame_size);
        assert(rest[p / frame_size] == outputs[1 + p / frame_size]);
    }
}

/// An utterance of exactly `k` full frames, `k` at least one, is cut into `k`
/// frames and comes back one frame shorter: with one processed frame of
/// `frame_size` samples for each frame handed in, the result has
/// `(k - 1) * frame_size` samples.
pub proof fn lemma_full_frames_round_trip<T>(
    samples: Seq<T>,
    outputs: Seq<Seq<T>>,
    frame_size: int,
    k: int,
)
    requires
        frame_size > 0,
        k >= 1,
        samples.len() == k * frame_size,
        outputs.len() == frames_of(samples, frame_size).len(),
        forall|n: int| 0 <= n < outputs.len() ==> (#[trigger] outputs[n]).len() == frame_size,
    ensures
        frames_of(samples, frame_size).len() == k,
        after_warm_up(outputs).len() == (k - 1) * frame_size,
        after_warm_up(outputs).len() == samples.len() - frame_size,
{
    lemma_fundamental_div_mod_converse(samples.len() as int, frame_size, k, 0);
    lemma_warm_up_costs_one_frame(outputs, frame_size);
    lemma_mul_is_distributive_add(frame_size, k - 1, 1);
    lemma_mul_is_commutative(frame_size, k - 1);
    lemma_mul_is_commutative(frame_size, k);
}

/// A rest that does not fill a frame changes nothing: an utterance of full
/// frames followed by fewer than `frame_size` samples is cut into the same
/// frames as the utterance without them, so the denoiser is handed the same
/// input either way.
pub proof fn lemma_partial_frame_dropped<T>(samples: Seq<T>, rest: Seq<T>, frame_size: int)
    requires
        frame_size > 0,
        samples.len() as int % frame_size == 0,
        rest.len() < frame_size,
    ensures
        frames_of(samples + rest, frame_size) == frames_of(samples, frame_size),
{
    let len = samples.len() as int;
    let k = len / frame_size;
    lemma_fundamental_div_mod(len, frame_size);
    lemma_mul_is_commutative(frame_size, k);
    lemma_fundamental_div_mod_converse(len + rest.len(), frame_size, k, rest.len() as int);
    let with_rest = frames_of(samples + rest, frame_size);
    let without = frames_of(samples, frame_size);
    assert forall|n: int| 0 <= n < without.len() implies with_rest[n] == without[n] by {
        lemma_frames_fit(samples.len(), frame_size, n);
    }
}

/// Cuts `samples` into its consecutive full frames of `frame_size` samples.
pub fn split_frames<T: Copy>(samples: &Vec<T>, frame_size: usize) -> (frames: Vec<Vec<T>>)
    requires
        frame_size > 0,
    ensures
        frame_views(frames@) == frames_of(samples@, frame_size as int),
        frames@.len() == frame_count(samples@.len(), frame_size as int),
        forall|k: int|
            0 <= k < frames@.len() ==> (#[trigger] frames@[k])@ == frame_at(
                samples@,
                frame_size as int,
                k,
            ),
{
    let count: usize = samples.len() / frame_size;
    let mut frames: Vec<Vec<T>> = Vec::new();
    let mut k: usize = 0;
    while k < count
        invariant
            frame_size > 0,
            samples@.len() <= usize::MAX,
            count == frame_count(samples@.len(), frame_size as int),
            k <= count,
            frames@.len() == k,
            forall|j: int|
                0 <= j < k ==> (#[trigger] frames@[j])@ == frame_at(samples@, frame_size as int, j),
        decreases count - k,
    {
        proof {
            lemma_frames_fit(samples@.len(), frame_size as int, k as int);
        }
        let start: usize = k * frame_size;
        let mut frame: Vec<T> = Vec::new();
        let mut p: usize = 0;
        while p < frame_size
            invariant
                p <= frame_size,
                samples@.len() <= usize::MAX,
                start + frame_size <= samples@.len(),
                frame@ == samples@.subrange(start as int, start + p),
            decreases frame_size - p,
        {
            frame.push(samples[start + p]);
            p += 1;
        }
        frames.push(frame);
        k += 1;
    }
    frames
}

/// Cuts an utterance into the frames that the denoiser takes.
pub fn denoiser_frames<T: Copy>(samples: &Vec<T>) -> (frames: Vec<Vec<T>>)
    ensures
        frame_views(frames@) == frames_of(samples@, denoiser_frame_size()),
        frames@.len() == frame_count(samples@.len(), denoiser_frame_size()),
        forall|k: int|
            0 <= k < frames@.len() ==> (#[trigger] frames@[k])@ == frame_at(
                samples@,
                denoiser_frame_size(),
                k,
            ),
{
    split_frames(samples, frame_size_of_denoiser())
}

/// Joins the processed frames in order, leaving out the first.
pub fn join_after_warm_up<T: Copy>(outputs: &Vec<Vec<T>>) -> (utterance: Vec<T>)
    ensures
        utterance@ == after_warm_up(frame_views(outputs@)),
{
    let mut utterance: Vec<T> = Vec::new();
    if outputs.len() == 0 {
        return utterance;
    }
    let ghost views = frame_views(outputs@);
    let mut k: usize = 1;
    while k < outputs.len()
        invariant
            1 <= k <= outputs.len(),
            views == frame_views(outputs@),
            utterance@ == views.subrange(1, k as int).flatten(),
        decreases outputs.len() - k,
    {
        let frame = &outputs[k];
        let mut p: usize = 0;
        while p < frame.len()
            invariant
                p <= frame.len(),
                k < outputs.len(),
                views == frame_views(outputs@),
                frame@ == views[k as int],
                utterance@ == views.subrange(1, k as int).flatten() + frame@.take(p as int),
            decreases frame.len() - p,
        {
            utterance.push(frame[p]);
            p += 1;
        }
        proof {
            assert(views.subrange(1, k + 1) =~= views.subrange(1, k as int).push(views[k as int]));
            views.subrange(1, k as int).lemma_flatten_push(views[k as int]);
        }
        k += 1;
    }
    utterance
}

} // verus!
