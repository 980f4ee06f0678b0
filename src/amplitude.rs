//! Loudness metering: reducing raw audio frames to display levels, and the
//! bounded buffer of recent levels that the display reads from.

use std::collections::VecDeque;
use vstd::prelude::*;

verus! {

/// The level of a full-scale frame. Levels are thousandths of full scale.
pub const LEVEL_MAX: u16 = 1000;

/// Frames quieter than this level count as silence.
pub const NOISE_FLOOR: u16 = 10;

/// The level that silence is shown at, so that the display does not flicker.
pub const SILENCE_LEVEL: u16 = 20;

/// The magnitude of one raw sample.
pub open spec fn magnitude(x: i16) -> nat {
    if x < 0 { (-(x as int)) as nat } else { x as nat }
}

/// The largest magnitude in a frame; zero for an empty frame.
pub open spec fn peak(s: Seq<i16>) -> nat
    decreases s.len(),
{
    if s.len() == 0 {
        0
    } else {
        let rest = peak(s.drop_last());
        let last = magnitude(s.last());
        if last > rest { last } else { rest }
    }
}

/// The display level of a frame whose peak magnitude is `p`: the peak scaled
/// to thousandths of full scale and clamped to `LEVEL_MAX`, with anything
/// under the noise floor raised to the silence level.
pub open spec fn level_of_peak(p: nat) -> u16 {
    let scaled = p * (LEVEL_MAX as nat) / 32768;
    let clamped = if scaled > LEVEL_MAX as nat { LEVEL_MAX as nat } else { scaled };
    if clamped < NOISE_FLOOR as nat { SILENCE_LEVEL } else { clamped as u16 }
}

/// The display level of a raw frame.
pub open spec fn frame_level_spec(frame: Seq<i16>) -> u16 {
    level_of_peak(peak(frame))
}

proof fn lemma_peak_bound(s: Seq<i16>)
    ensures
        peak(s) <= 32768,
    decreases s.len(),
{
    if s.len() > 0 {
        lemma_peak_bound(s.drop_last());
    }
}

/// Reduces one raw audio frame to its display level, by its peak magnitude.
pub fn frame_level(frame: &Vec<i16>) -> (r: u16)
    ensures
        r == frame_level_spec(frame@),
        NOISE_FLOOR <= r <= LEVEL_MAX,
{
    let mut p: u32 = 0;
    let mut i: usize = 0;
    while i < frame.len()
        invariant
            i <= frame@.len(),
            p as nat == peak(frame@.subrange(0, i as int)),
            p <= 32768,
        decreases frame@.len() - i,
    {
        let x = frame[i];
        let m: u32 = if x < 0 { (-(x as i32)) as u32 } else { x as u32 };
        proof {
            assert(frame@.subrange(0, i + 1).drop_last() =~= frame@.subrange(0, i as int));
            lemma_peak_bound(frame@.subrange(0, i + 1));
        }
        if m > p {
            p = m;
        }
        i = i + 1;
    }
    assert(frame@.subrange(0, frame@.len() as int) =~= frame@);
    assert(p * 1000 <= 32768 * 1000) by (nonlinear_arith)
        requires
            p <= 32768,
    ;
    let scaled: u32 = p * (LEVEL_MAX as u32) / 32768;
    let clamped: u32 = if scaled > LEVEL_MAX as u32 { LEVEL_MAX as u32 } else { scaled };
    if clamped < NOISE_FLOOR as u32 {
        SILENCE_LEVEL
    } else {
        clamped as u16
    }
}

/// The contents after one insertion into a buffer of capacity `cap`: the new
/// level goes last, and the oldest one leaves when the buffer was full.
pub open spec fn bounded_push(s: Seq<u16>, x: u16, cap: nat) -> Seq<u16> {
    if s.len() < cap { s.push(x) } else { s.drop_first().push(x) }
}

/// The contents after inserting each of `xs` in turn.
pub open spec fn push_all(s: Seq<u16>, xs: Seq<u16>, cap: nat) -> Seq<u16>
    decreases xs.len(),
{
    if xs.len() == 0 {
        s
    } else {
        bounded_push(push_all(s, xs.drop_last(), cap), xs.last(), cap)
    }
}

/// The `n` most recent of `xs`, oldest first (all of them when there are fewer).
pub open spec fn most_recent(xs: Seq<u16>, n: nat) -> Seq<u16> {
    if xs.len() <= n { xs } else { xs.subrange(xs.len() - n, xs.len() as int) }
}

/// A fixed-capacity buffer of the most recent levels, in arrival order; when
/// full, a new level evicts the oldest.
pub struct AmplitudeRing {
    samples: VecDeque<u16>,
    capacity: usize,
}

impl View for AmplitudeRing {
    type V = Seq<u16>;

    closed spec fn view(&self) -> Seq<u16> {
        self.samples@
    }
}

impl AmplitudeRing {
    /// The buffer's fixed capacity.
    pub closed spec fn cap(&self) -> nat {
        self.capacity as nat
    }

    /// The capacity is positive and never exceeded.
    pub closed spec fn wf(&self) -> bool {
        &&& self.capacity > 0
        &&& self.samples@.len() <= self.capacity
    }

    /// Makes an empty buffer of the given capacity.
    pub fn new(capacity: usize) -> (r: Self)
        requires
            capacity > 0,
        ensures
            r.wf(),
            r@ == Seq::<u16>::empty(),
            r.cap() == capacity,
    {
        AmplitudeRing { samples: VecDeque::new(), capacity }
    }

    /// The buffer's fixed capacity.
    pub fn capacity(&self) -> (r: usize)
        ensures
            r == self.cap(),
    {
        self.capacity
    }

    /// The number of levels held.
    pub fn len(&self) -> (r: usize)
        requires
            self.wf(),
        ensures
            r == self@.len(),
            r <= self.cap(),
    {
        self.samples.len()
    }

    /// Appends a level, evicting the oldest one when the buffer is full.
    pub fn push(&mut self, x: u16)
        requires
            old(self).wf(),
        ensures
            final(self).wf(),
            final(self).cap() == old(self).cap(),
            final(self)@ == bounded_push(old(self)@, x, old(self).cap()),
    {
        if self.samples.len() >= self.capacity {
            let _ = self.samples.pop_front();
        }
        self.samples.push_back(x);
        proof {
            assert(old(self)@.len() >= old(self).cap() ==> old(self)@.subrange(1, old(self)@.len() as int) =~= old(self)@.drop_first());
        }
    }

    /// Takes the oldest level out, or `None` when the buffer is empty.
    pub fn pop_oldest(&mut self) -> (r: Option<u16>)
        requires
            old(self).wf(),
        ensures
            final(self).wf(),
            final(self).cap() == old(self).cap(),
            old(self)@.len() == 0 ==> r is None && final(self)@ == old(self)@,
            old(self)@.len() > 0 ==> r == Some(old(self)@[0]) && final(self)@ == old(self)@.drop_first(),
    {
        let r = self.samples.pop_front();
        proof {
            assert(old(self)@.len() > 0 ==> old(self)@.subrange(1, old(self)@.len() as int) =~= old(self)@.drop_first());
        }
        r
    }

    /// Empties the buffer.
    pub fn clear(&mut self)
        requires
            old(self).wf(),
        ensures
            final(self).wf(),
            final(self).cap() == old(self).cap(),
            final(self)@ == Seq::<u16>::empty(),
    {
        self.samples = VecDeque::new();
    }

    /// The levels held, oldest first.
    pub fn to_vec(&self) -> (r: Vec<u16>)
        requires
            self.wf(),
        ensures
            r@ == self@,
    {
        let mut r: Vec<u16> = Vec::new();
        let mut i: usize = 0;
        while i < self.samples.len()
            invariant
                i <= self@.len(),
                r@ == self@.subrange(0, i as int),
            decreases self@.len() - i,
        {
            r.push(self.samples[i]);
            i = i + 1;
            assert(r@ =~= self@.subrange(0, i as int));
        }
        assert(r@ =~= self@);
        r
    }
}

/// Inserting `xs` into an empty buffer of capacity `cap` leaves it holding at
/// most `cap` levels: exactly the `cap` most recent of `xs`, in arrival order.
pub proof fn lemma_ring_keeps_most_recent(xs: Seq<u16>, cap: nat)
    requires
        cap > 0,
    ensures
        push_all(Seq::<u16>::empty(), xs, cap).len() <= cap,
        push_all(Seq::<u16>::empty(), xs, cap) == most_recent(xs, cap),
    decreases xs.len(),
{
    if xs.len() > 0 {
        let prev = xs.drop_last();
        lemma_ring_keeps_most_recent(prev, cap);
        if prev.len() < cap {
            assert(prev.push(xs.last()) =~= xs);
        } else {
            let before = prev.subrange(prev.len() - cap, prev.len() as int);
            assert(before.drop_first().push(xs.last())
                =~= xs.subrange(xs.len() - cap, xs.len() as int));
        }
    }
}

} // verus!
