//! Keyframe sequences: an ordered list of values, each pinned to an offset
//! in the unit interval, compiled into one animation.
//!
//! Construction validates the offsets: the first is zero, the last is one,
//! and each is greater than the one before. A list that fails produces no
//! animation. A validated animation is evaluated at a progress by finding
//! the two keyframes that bracket it and interpolating between them, eased
//! by the curve of the keyframe being approached.

use crate::animatable::Animatable;
use crate::easing::{ease_raw, lemma_ease_range, Easing};
use crate::error::KeyframeError;
use crate::fixed::{clamp_between, fixed, Fixed, SCALE};
use vstd::prelude::*;

verus! {

/// A value, the offset at which it is reached, and the easing of the
/// segment that leads to it (linear if none).
#[derive(Debug)]
pub struct Keyframe<V> {
    pub value: V,
    pub offset: Fixed,
    pub easing: Option<Easing>,
}

/// A validated keyframe sequence with its total duration in microseconds.
#[derive(Debug)]
pub struct KeyframeAnimation<V: Animatable> {
    duration: u64,
    keyframes: Vec<Keyframe<V>>,
}

/// The offset of keyframe `i` is below that of its successor.
pub open spec fn rises_at<V>(frames: Seq<Keyframe<V>>, i: int) -> bool {
    frames[i].offset@ < frames[i + 1].offset@
}

/// Each offset is greater than the one before.
pub open spec fn offsets_increase<V>(frames: Seq<Keyframe<V>>) -> bool {
    forall|i: int| 0 <= i < frames.len() - 1 ==> #[trigger] rises_at(frames, i)
}

/// The first reason for which a keyframe list is refused, if there is one.
pub open spec fn first_fault<V>(frames: Seq<Keyframe<V>>) -> Option<KeyframeError> {
    if frames.len() == 0 {
        Some(KeyframeError::Empty)
    } else if frames[0].offset@ != 0 {
        Some(KeyframeError::FirstOffsetNotZero)
    } else if frames[frames.len() - 1].offset@ != SCALE {
        Some(KeyframeError::LastOffsetNotOne)
    } else if !offsets_increase(frames) {
        Some(KeyframeError::OffsetsNotIncreasing)
    } else {
        None
    }
}

/// The list describes an animation: it starts at offset zero, ends at
/// offset one, and its offsets strictly increase.
pub open spec fn valid_frames<V>(frames: Seq<Keyframe<V>>) -> bool {
    &&& frames.len() >= 2
    &&& frames[0].offset@ == 0
    &&& frames[frames.len() - 1].offset@ == SCALE
    &&& offsets_increase(frames)
}

/// A list is valid exactly when nothing is at fault.
pub proof fn lemma_valid_iff_no_fault<V>(frames: Seq<Keyframe<V>>)
    ensures
        valid_frames(frames) <==> first_fault(frames) is None,
{
}

/// In a valid list every offset lies in the unit interval, and an earlier
/// keyframe has the smaller offset.
pub proof fn lemma_offsets_ordered<V>(frames: Seq<Keyframe<V>>, i: int, j: int)
    requires
        valid_frames(frames),
        0 <= i <= j < frames.len(),
    ensures
        0 <= frames[i].offset@ <= frames[j].offset@ <= SCALE,
        i < j ==> frames[i].offset@ < frames[j].offset@,
    decreases j - i,
{
    if i < j {
        lemma_offsets_ordered(frames, i + 1, j);
        assert(rises_at(frames, i));
    }
    if i > 0 {
        lemma_offsets_ordered_from_zero(frames, i);
    }
    if j < frames.len() - 1 {
        lemma_offsets_ordered_to_end(frames, j);
    }
}

proof fn lemma_offsets_ordered_from_zero<V>(frames: Seq<Keyframe<V>>, i: int)
    requires
        valid_frames(frames),
        0 <= i < frames.len(),
    ensures
        0 <= frames[i].offset@,
    decreases i,
{
    if i > 0 {
        lemma_offsets_ordered_from_zero(frames, i - 1);
        assert(rises_at(frames, i - 1));
    }
}

proof fn lemma_offsets_ordered_to_end<V>(frames: Seq<Keyframe<V>>, j: int)
    requires
        valid_frames(frames),
        0 <= j < frames.len(),
    ensures
        frames[j].offset@ <= SCALE,
    decreases frames.len() - j,
{
    if j < frames.len() - 1 {
        lemma_offsets_ordered_to_end(frames, j + 1);
        assert(rises_at(frames, j));
    }
}

/// The index, from `from` on, of the first keyframe whose offset is not
/// below progress `p`; the last index if there is none.
pub open spec fn segment_end<V>(frames: Seq<Keyframe<V>>, p: int, from: int) -> int
    decreases frames.len() - from,
{
    if from >= frames.len() - 1 || p <= frames[from].offset@ {
        from
    } else {
        segment_end(frames, p, from + 1)
    }
}

/// Progress within the segment from offset `lo` to offset `hi`, rounded
/// down.
pub open spec fn local_progress(lo: int, hi: int, p: int) -> int {
    ((p - lo) * SCALE) / (hi - lo)
}

/// The value of a keyframe list at progress `p`, which is first limited to
/// the unit interval.
pub open spec fn value_at_spec<V: Animatable>(frames: Seq<Keyframe<V>>, p: int) -> V {
    let q = clamp_between(p, 0, SCALE as int);
    let end = segment_end(frames, q, 1);
    let from = frames[end - 1];
    let to = frames[end];
    let t = local_progress(from.offset@, to.offset@, q);
    let eased = match to.easing {
        Some(easing) => ease_raw(easing, t),
        None => t,
    };
    from.value.interpolate_spec(to.value, fixed(eased))
}

/// The segment found for a progress in the unit interval brackets it.
pub proof fn lemma_segment_brackets<V>(frames: Seq<Keyframe<V>>, p: int, from: int)
    requires
        valid_frames(frames),
        1 <= from < frames.len(),
        frames[from - 1].offset@ <= p <= SCALE,
    ensures
        from <= segment_end(frames, p, from) < frames.len(),
        frames[segment_end(frames, p, from) - 1].offset@ <= p <= frames[segment_end(
            frames,
            p,
            from,
        )].offset@,
    decreases frames.len() - from,
{
    if from >= frames.len() - 1 || p <= frames[from].offset@ {
    } else {
        lemma_segment_brackets(frames, p, from + 1);
    }
}

/// The search for the offset of keyframe `k` ends at `k`.
proof fn lemma_segment_of_keyframe<V>(frames: Seq<Keyframe<V>>, k: int, from: int)
    requires
        valid_frames(frames),
        1 <= from <= k < frames.len(),
    ensures
        segment_end(frames, frames[k].offset@, from) == k,
    decreases k - from,
{
    if from < k {
        lemma_offsets_ordered(frames, from, k);
        lemma_segment_of_keyframe(frames, k, from + 1);
    }
}

pub proof fn lemma_local_progress_range(lo: int, hi: int, p: int)
    by (nonlinear_arith)
    requires
        lo <= p <= hi,
        lo < hi,
    ensures
        0 <= local_progress(lo, hi, p) <= SCALE,
        p == lo ==> local_progress(lo, hi, p) == 0,
        p == hi ==> local_progress(lo, hi, p) == SCALE,
{
}

/// At the offset of a keyframe a valid animation has exactly that
/// keyframe's value, whatever the easing of the segments around it.
pub proof fn lemma_value_at_keyframe<V: Animatable>(frames: Seq<Keyframe<V>>, k: int)
    requires
        valid_frames(frames),
        0 <= k < frames.len(),
    ensures
        value_at_spec(frames, frames[k].offset@ as int) == frames[k].value,
{
    lemma_offsets_ordered(frames, 0, k);
    lemma_offsets_ordered(frames, 0, 1);
    let q = frames[k].offset@;
    if k == 0 {
        assert(segment_end(frames, q, 1) == 1);
        lemma_local_progress_range(frames[0].offset@, frames[1].offset@, q);
        assert forall|e: Easing| ease_raw(e, 0) == 0 by {
            lemma_ease_range(e, 0);
        }
        V::lemma_interpolate_endpoints(frames[0].value, frames[1].value);
    } else {
        lemma_segment_of_keyframe(frames, k, 1);
        lemma_offsets_ordered(frames, k - 1, k);
        lemma_local_progress_range(frames[k - 1].offset@, frames[k].offset@, q);
        assert forall|e: Easing| ease_raw(e, SCALE as int) == SCALE by {
            lemma_ease_range(e, SCALE as int);
        }
        V::lemma_interpolate_endpoints(frames[k - 1].value, frames[k].value);
    }
}

fn check_offsets<V>(keyframes: &Vec<Keyframe<V>>) -> (r: Option<KeyframeError>)
    ensures
        r == first_fault(keyframes@),
{
    let n = keyframes.len();
    if n == 0 {
        return Some(KeyframeError::Empty);
    }
    if keyframes[0].offset.raw != 0 {
        return Some(KeyframeError::FirstOffsetNotZero);
    }
    if keyframes[n - 1].offset.raw != SCALE {
        return Some(KeyframeError::LastOffsetNotOne);
    }
    let mut i: usize = 0;
    while i < n - 1
        invariant
            n == keyframes.len(),
            n >= 1,
            i <= n - 1,
            keyframes@[0].offset@ == 0,
            keyframes@[n - 1].offset@ == SCALE,
            forall|j: int| 0 <= j < i ==> #[trigger] rises_at(keyframes@, j),
        decreases n - i,
    {
        if keyframes[i].offset.raw >= keyframes[i + 1].offset.raw {
            assert(!rises_at(keyframes@, i as int));
            assert(!offsets_increase(keyframes@));
            return Some(KeyframeError::OffsetsNotIncreasing);
        }
        i = i + 1;
    }
    assert(offsets_increase(keyframes@));
    None
}

impl<V: Animatable> KeyframeAnimation<V> {
    #[verifier::type_invariant]
    pub closed spec fn well_formed(self) -> bool {
        valid_frames(self.keyframes@)
    }

    /// The keyframes, in order.
    pub closed spec fn frames(self) -> Seq<Keyframe<V>> {
        self.keyframes@
    }

    /// The total duration in microseconds.
    pub closed spec fn duration_spec(self) -> u64 {
        self.duration
    }

    /// The value of the animation at progress `p`.
    pub open spec fn value_spec(self, p: int) -> V {
        value_at_spec(self.frames(), p)
    }

    /// The animation over `duration` microseconds that passes through
    /// `keyframes`, or the first fault of the list.
    pub fn new(duration: u64, keyframes: Vec<Keyframe<V>>) -> (r: Result<Self, KeyframeError>)
        ensures
            r is Ok <==> valid_frames(keyframes@),
            r matches Ok(animation) ==> animation.frames() == keyframes@
                && animation.duration_spec() == duration,
            r matches Err(e) ==> first_fault(keyframes@) == Some(e),
    {
        match check_offsets(&keyframes) {
            Some(e) => Err(e),
            None => Ok(KeyframeAnimation { duration, keyframes }),
        }
    }

    /// The animation that passes through `values` in order, one linear
    /// segment of `step_duration` microseconds from each to the next.
    pub fn evenly_spaced(values: Vec<V>, step_duration: u64) -> (r: Result<Self, KeyframeError>)
        ensures
            r is Ok <==> sequence_fault(values@.len() as int, step_duration as int) is None,
            r matches Ok(animation) ==> animation.frames() == even_frames(values@)
                && animation.duration_spec() == (values@.len() - 1) * step_duration,
            r matches Err(e) ==> sequence_fault(values@.len() as int, step_duration as int)
                == Some(e),
    {
        let n = values.len();
        if n == 0 {
            return Err(KeyframeError::Empty);
        }
        if n == 1 {
            return Err(KeyframeError::LastOffsetNotOne);
        }
        if n - 1 > 1_000_000 {
            return Err(KeyframeError::OffsetsNotIncreasing);
        }
        let steps: u64 = (n - 1) as u64;
        let total: u64 = match steps.checked_mul(step_duration) {
            Some(total) => total,
            None => {
                return Err(KeyframeError::DurationOverflow);
            },
        };
        let mut frames: Vec<Keyframe<V>> = Vec::new();
        let mut i: usize = 0;
        while i < n
            invariant
                n == values.len(),
                2 <= n <= SCALE + 1,
                steps == n - 1,
                i <= n,
                frames@.len() == i,
                forall|j: int| 0 <= j < i ==> frames@[j] == even_frames(values@)[j],
            decreases n - i,
        {
            proof {
                if i < n - 1 {
                    lemma_even_offsets(i as int, steps as int);
                } else {
                    lemma_even_offsets(0, steps as int);
                }
                assert(i * SCALE <= SCALE * SCALE) by (nonlinear_arith)
                    requires
                        0 <= i <= SCALE,
                ;
            }
            let offset = Fixed::from_raw((((i as u64) * 1_000_000) / steps) as i64);
            frames.push(Keyframe { value: values[i], offset, easing: None });
            i = i + 1;
        }
        proof {
            assert(frames@ =~= even_frames(values@));
            lemma_even_frames_valid(values@);
        }
        KeyframeAnimation::new(total, frames)
    }

    /// The total duration in microseconds.
    pub fn duration(&self) -> (r: u64)
        ensures
            r == self.duration_spec(),
    {
        self.duration
    }

    /// The number of keyframes.
    pub fn len(&self) -> (r: usize)
        ensures
            r == self.frames().len(),
            r >= 2,
    {
        proof {
            use_type_invariant(self);
        }
        self.keyframes.len()
    }

    /// The value of the last keyframe: where the animation comes to rest.
    pub fn last_value(&self) -> (r: V)
        ensures
            r == self.frames()[self.frames().len() - 1].value,
            valid_frames(self.frames()),
    {
        proof {
            use_type_invariant(self);
        }
        self.keyframes[self.keyframes.len() - 1].value
    }

    /// The value at progress `p`: the interpolation between the two
    /// keyframes that bracket `p`, at the eased local progress between
    /// their offsets. Progress outside the unit interval counts as the
    /// nearer end.
    pub fn value_at(&self, p: Fixed) -> (r: V)
        ensures
            r == self.value_spec(p@),
    {
        proof {
            use_type_invariant(self);
        }
        let q: i64 = if p.raw < 0 {
            0
        } else if p.raw > SCALE {
            SCALE
        } else {
            p.raw
        };
        let n = self.keyframes.len();
        let mut end: usize = 1;
        proof {
            lemma_offsets_ordered(self.keyframes@, 0, 0);
        }
        while end < n - 1 && q > self.keyframes[end].offset.raw
            invariant
                n == self.keyframes.len(),
                valid_frames(self.keyframes@),
                1 <= end < n,
                0 <= q <= SCALE,
                self.keyframes@[end - 1].offset@ <= q,
                segment_end(self.keyframes@, q as int, end as int) == segment_end(
                    self.keyframes@,
                    q as int,
                    1,
                ),
            decreases n - end,
        {
            end = end + 1;
        }
        let from = &self.keyframes[end - 1];
        let to = &self.keyframes[end];
        proof {
            lemma_segment_brackets(self.keyframes@, q as int, end as int);
            lemma_offsets_ordered(self.keyframes@, end - 1, end as int);
            lemma_local_progress_range(from.offset@, to.offset@, q as int);
            assert((q - from.offset@) * SCALE <= SCALE * SCALE) by (nonlinear_arith)
                requires
                    0 <= q - from.offset@ <= SCALE,
            ;
        }
        let t = Fixed::from_raw(((q - from.offset.raw) * 1_000_000) / (to.offset.raw - from.offset.raw));
        let eased = match to.easing {
            Some(easing) => easing.apply(t),
            None => t,
        };
        from.value.interpolate(&to.value, eased)
    }
}

/// At its first and its last progress a valid animation has the values of
/// its first and its last keyframe.
pub proof fn lemma_animation_ends<V: Animatable>(frames: Seq<Keyframe<V>>)
    requires
        valid_frames(frames),
    ensures
        value_at_spec(frames, 0) == frames[0].value,
        value_at_spec(frames, SCALE as int) == frames[frames.len() - 1].value,
{
    lemma_value_at_keyframe(frames, 0);
    lemma_value_at_keyframe(frames, frames.len() - 1);
}

/// The offset of keyframe `i` among `len` evenly spaced ones, rounded down.
pub open spec fn even_offset(i: int, len: int) -> int {
    if len >= 2 {
        (i * SCALE) / (len - 1)
    } else {
        0
    }
}

/// The keyframe list that passes through `values` at evenly spaced
/// offsets, with linear segments.
pub open spec fn even_frames<V>(values: Seq<V>) -> Seq<Keyframe<V>> {
    Seq::new(
        values.len(),
        |i: int|
            Keyframe {
                value: values[i],
                offset: fixed(even_offset(i, values.len() as int)),
                easing: None,
            },
    )
}

/// Why `len` values, `step` microseconds apart, make no sequence, if they
/// do not: there are none; there is only one, which leaves nothing to
/// traverse; there are more than offsets to tell them apart; or the steps
/// add up to more microseconds than fit into 64 bits.
pub open spec fn sequence_fault(len: int, step: int) -> Option<KeyframeError> {
    if len == 0 {
        Some(KeyframeError::Empty)
    } else if len == 1 {
        Some(KeyframeError::LastOffsetNotOne)
    } else if len - 1 > SCALE {
        Some(KeyframeError::OffsetsNotIncreasing)
    } else if (len - 1) * step > u64::MAX {
        Some(KeyframeError::DurationOverflow)
    } else {
        None
    }
}

proof fn lemma_even_offsets(i: int, m: int)
    by (nonlinear_arith)
    requires
        0 <= i < m,
        1 <= m <= SCALE,
    ensures
        0 <= (i * SCALE) / m < ((i + 1) * SCALE) / m <= SCALE,
        (0 * SCALE) / m == 0,
        (m * SCALE) / m == SCALE,
{
    assert((i + 1) * SCALE == i * SCALE + SCALE);
    assert(i * SCALE + m <= (i + 1) * SCALE);
    assert((i * SCALE + m) / m == (i * SCALE) / m + 1);
    assert((i * SCALE + m) / m <= ((i + 1) * SCALE) / m);
    assert((i + 1) * SCALE <= m * SCALE);
    assert(((i + 1) * SCALE) / m <= (m * SCALE) / m);
}

/// Up to a million and one values, and no fewer than two, can be spaced
/// evenly: their keyframe list is valid.
pub proof fn lemma_even_frames_valid<V>(values: Seq<V>)
    requires
        2 <= values.len() <= SCALE + 1,
    ensures
        valid_frames(even_frames(values)),
{
    let frames = even_frames(values);
    let m = values.len() - 1;
    lemma_even_offsets(0, m);
    assert forall|i: int| 0 <= i < frames.len() - 1 implies #[trigger] rises_at(frames, i) by {
        lemma_even_offsets(i, m);
    }
}

/// The fault of a sequence is the first fault of its evenly spaced
/// keyframes, unless only the duration is at fault.
pub proof fn lemma_sequence_fault<V>(values: Seq<V>, step: int)
    requires
        0 <= step,
    ensures
        sequence_fault(values.len() as int, step) is None ==> valid_frames(even_frames(values)),
        sequence_fault(values.len() as int, step) matches Some(e) ==> (e
            != KeyframeError::DurationOverflow ==> first_fault(even_frames(values)) == Some(e)),
{
    let frames = even_frames(values);
    let len = values.len() as int;
    if len >= 2 && len - 1 <= SCALE {
        lemma_even_frames_valid(values);
    } else if len >= 2 {
        lemma_valid_iff_no_fault(frames);
        if valid_frames(frames) {
            lemma_crowded(frames, len - 1);
        }
        let m = len - 1;
        assert((0 * SCALE) / m == 0) by (nonlinear_arith)
            requires
                m >= 1,
        ;
        assert((m * SCALE) / m == SCALE) by (nonlinear_arith)
            requires
                m >= 1,
        ;
    }
}

/// In a valid list the offset of keyframe `k` is at least `k` raw units.
proof fn lemma_crowded<V>(frames: Seq<Keyframe<V>>, k: int)
    requires
        valid_frames(frames),
        0 <= k < frames.len(),
    ensures
        frames[k].offset@ >= k,
    decreases k,
{
    if k > 0 {
        lemma_crowded(frames, k - 1);
        assert(rises_at(frames, k - 1));
    }
}

/// The keyframe list that a list of `(value, offset, easing)` triples
/// stands for.
pub open spec fn frames_of<V>(triples: Seq<(V, Fixed, Option<Easing>)>) -> Seq<Keyframe<V>> {
    Seq::new(
        triples.len(),
        |i: int| Keyframe { value: triples[i].0, offset: triples[i].1, easing: triples[i].2 },
    )
}

/// Builds a keyframe animation from `(value, offset, easing)` triples, or
/// reports the first fault of the list.
pub fn build_keyframes<V: Animatable>(
    duration: u64,
    keyframes: Vec<(V, Fixed, Option<Easing>)>,
) -> (r: Result<KeyframeAnimation<V>, KeyframeError>)
    ensures
        r is Ok <==> valid_frames(frames_of(keyframes@)),
        r matches Ok(animation) ==> animation.frames() == frames_of(keyframes@)
            && animation.duration_spec() == duration,
        r matches Err(e) ==> first_fault(frames_of(keyframes@)) == Some(e),
{
    let mut frames: Vec<Keyframe<V>> = Vec::new();
    let mut i: usize = 0;
    while i < keyframes.len()
        invariant
            i <= keyframes.len(),
            frames@.len() == i,
            forall|j: int| 0 <= j < i ==> frames@[j] == frames_of(keyframes@)[j],
        decreases keyframes.len() - i,
    {
        let triple = &keyframes[i];
        frames.push(Keyframe { value: triple.0, offset: triple.1, easing: triple.2 });
        i = i + 1;
    }
    assert(frames@ =~= frames_of(keyframes@));
    KeyframeAnimation::new(duration, frames)
}

} // verus!
