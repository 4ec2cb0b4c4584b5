//! A two-slot holder for one observed quantity: the previously sampled value
//! and the current one, with predicates over the (previous, current) pair.

use vstd::prelude::*;

verus! {

/// One observed quantity: the value sampled one tick ago and the latest one.
#[derive(Clone, Copy, Debug, PartialEq, Eq, Structural)]
pub struct TrackedQuantity<T> {
    pub previous: T,
    pub current: T,
}

/// The pair after one more successful sample: the current value moves into
/// the previous slot and the sample becomes current.
pub open spec fn spec_updated<T>(t: TrackedQuantity<T>, sample: T) -> TrackedQuantity<T> {
    TrackedQuantity { previous: t.current, current: sample }
}

/// The pair after a whole sequence of successful samples, applied in order.
pub open spec fn spec_run_samples<T>(init: TrackedQuantity<T>, samples: Seq<T>) -> TrackedQuantity<T>
    decreases samples.len(),
{
    if samples.len() == 0 {
        init
    } else {
        spec_updated(spec_run_samples(init, samples.drop_last()), samples.last())
    }
}

/// The two slots hold different values.
pub open spec fn spec_changed<T>(t: TrackedQuantity<T>) -> bool {
    t.previous != t.current
}

/// The value just became `target`: it is current now and was not before.
pub open spec fn spec_changed_to<T>(t: TrackedQuantity<T>, target: T) -> bool {
    t.current == target && t.previous != target
}

/// The value was `a` one tick ago and is `b` now.
pub open spec fn spec_changed_from_to<T>(t: TrackedQuantity<T>, a: T, b: T) -> bool {
    t.previous == a && t.current == b
}

impl<T: Copy> TrackedQuantity<T> {
    /// Both slots start out holding the same default sample.
    pub fn new(initial: T) -> (r: Self)
        ensures
            r.previous == initial,
            r.current == initial,
    {
        TrackedQuantity { previous: initial, current: initial }
    }

    /// A successful sample shifts the current value into the previous slot.
    pub fn update(&mut self, sample: T)
        ensures
            *final(self) == spec_updated(*old(self), sample),
    {
        self.previous = self.current;
        self.current = sample;
    }
}

impl TrackedQuantity<u8> {
    pub fn changed(&self) -> (r: bool)
        ensures
            r == spec_changed(*self),
    {
        self.previous != self.current
    }

    pub fn changed_to(&self, target: u8) -> (r: bool)
        ensures
            r == spec_changed_to(*self, target),
    {
        self.current == target && self.previous != target
    }

    pub fn changed_from_to(&self, a: u8, b: u8) -> (r: bool)
        ensures
            r == spec_changed_from_to(*self, a, b),
    {
        self.previous == a && self.current == b
    }

    pub fn increased(&self) -> (r: bool)
        ensures
            r == (self.current > self.previous),
    {
        self.current > self.previous
    }
}

impl TrackedQuantity<u32> {
    pub fn changed(&self) -> (r: bool)
        ensures
            r == spec_changed(*self),
    {
        self.previous != self.current
    }

    pub fn changed_to(&self, target: u32) -> (r: bool)
        ensures
            r == spec_changed_to(*self, target),
    {
        self.current == target && self.previous != target
    }

    pub fn changed_from_to(&self, a: u32, b: u32) -> (r: bool)
        ensures
            r == spec_changed_from_to(*self, a, b),
    {
        self.previous == a && self.current == b
    }

    pub fn increased(&self) -> (r: bool)
        ensures
            r == (self.current > self.previous),
    {
        self.current > self.previous
    }

    /// Whether the current raw representation differs from a sentinel's raw
    /// representation. The payload of this tracker is already the raw bit
    /// pattern of the observed word (for fields whose native form is a
    /// floating-point number, the caller stores its bits), so the strict
    /// bitwise comparison the sentinel check needs is plain word equality.
    pub fn bytes_changed_from(&self, sentinel: u32) -> (r: bool)
        ensures
            r == (self.current != sentinel),
    {
        self.current != sentinel
    }
}

impl TrackedQuantity<i32> {
    pub fn changed(&self) -> (r: bool)
        ensures
            r == spec_changed(*self),
    {
        self.previous != self.current
    }

    pub fn changed_to(&self, target: i32) -> (r: bool)
        ensures
            r == spec_changed_to(*self, target),
    {
        self.current == target && self.previous != target
    }

    pub fn changed_from_to(&self, a: i32, b: i32) -> (r: bool)
        ensures
            r == spec_changed_from_to(*self, a, b),
    {
        self.previous == a && self.current == b
    }

    pub fn increased(&self) -> (r: bool)
        ensures
            r == (self.current > self.previous),
    {
        self.current > self.previous
    }
}

/// After at least two samples, the tracker holds exactly the last two of them.
pub proof fn lemma_run_samples_last_two<T>(init: TrackedQuantity<T>, samples: Seq<T>)
    requires
        samples.len() >= 2,
    ensures
        spec_run_samples(init, samples).previous == samples[samples.len() - 2],
        spec_run_samples(init, samples).current == samples.last(),
    decreases samples.len(),
{
    let shorter = samples.drop_last();
    if samples.len() == 2 {
        assert(shorter.drop_last().len() == 0);
        assert(spec_run_samples(init, shorter).current == shorter.last());
    } else {
        lemma_run_samples_last_two(init, shorter);
        assert(shorter.last() == samples[samples.len() - 2]);
    }
}

/// Law of the change predicate: whatever the samples were, after feeding the
/// first `n + 1` of them the tracker reports a change from `a` to `b` exactly
/// when sample `n - 1` equals `a` and sample `n` equals `b`.
pub proof fn lemma_changed_from_to_iff_samples<T>(
    init: TrackedQuantity<T>,
    samples: Seq<T>,
    n: int,
    a: T,
    b: T,
)
    requires
        1 <= n < samples.len(),
    ensures
        spec_changed_from_to(spec_run_samples(init, samples.take(n + 1)), a, b) == (samples[n - 1]
            == a && samples[n] == b),
{
    let prefix = samples.take(n + 1);
    lemma_run_samples_last_two(init, prefix);
    assert(prefix[n - 1] == samples[n - 1]);
    assert(prefix[n] == samples[n]);
}

} // verus!
