//! Axis bounds: the extent of the valued samples of a series.

use crate::error::EmptySeriesError;
use crate::sample::{Sample, ValuedSample};
use crate::series::{ascending, lemma_valued_insert, lemma_valued_within, valued, valued_indices};
use crate::timestamp::Timestamp;
use crate::value::Value;
use vstd::prelude::*;

verus! {

/// The domain of a panel: the span of its timestamps and, in the total order, the
/// span of its values.
#[derive(Clone, Copy, Debug, PartialEq, Eq)]
pub struct Bounds {
    pub x_min: Timestamp,
    pub x_max: Timestamp,
    pub y_min: Value,
    pub y_max: Value,
}

/// The earlier of two timestamps; the first where they are the same.
pub open spec fn earlier(a: Timestamp, b: Timestamp) -> Timestamp {
    if b.millis() < a.millis() {
        b
    } else {
        a
    }
}

/// The later of two timestamps; the first where they are the same.
pub open spec fn later(a: Timestamp, b: Timestamp) -> Timestamp {
    if a.millis() < b.millis() {
        b
    } else {
        a
    }
}

/// The lower of two values in the total order; the first where they are the same.
pub open spec fn lower(a: Value, b: Value) -> Value {
    if b.key() < a.key() {
        b
    } else {
        a
    }
}

/// The higher of two values in the total order; the first where they are the same.
pub open spec fn higher(a: Value, b: Value) -> Value {
    if a.key() < b.key() {
        b
    } else {
        a
    }
}

impl Bounds {
    /// Whether the bounds are the extent of `v`: every sample lies within them, and
    /// each of the four is the timestamp or the value of a sample.
    pub open spec fn is_extent_of(self, v: Seq<ValuedSample>) -> bool {
        &&& forall|i: int|
            0 <= i < v.len() ==> self.encloses(
                #[trigger] v[i],
            )
        &&& exists|i: int| 0 <= i < v.len() && (#[trigger] v[i]).timestamp == self.x_min
        &&& exists|i: int| 0 <= i < v.len() && (#[trigger] v[i]).timestamp == self.x_max
        &&& exists|i: int| 0 <= i < v.len() && (#[trigger] v[i]).value == self.y_min
        &&& exists|i: int| 0 <= i < v.len() && (#[trigger] v[i]).value == self.y_max
    }

    /// Whether the sample lies within the bounds.
    pub open spec fn encloses(self, s: ValuedSample) -> bool {
        &&& self.x_min.millis() <= s.timestamp.millis() <= self.x_max.millis()
        &&& self.y_min.key() <= s.value.key() <= self.y_max.key()
    }

    /// Whether the timestamp lies within the X-domain.
    pub open spec fn spans(self, t: Timestamp) -> bool {
        self.x_min.millis() <= t.millis() <= self.x_max.millis()
    }

    /// The extent of one sample.
    pub open spec fn spec_at(s: ValuedSample) -> Bounds {
        Bounds { x_min: s.timestamp, x_max: s.timestamp, y_min: s.value, y_max: s.value }
    }

    /// The bounds widened to enclose the sample: unchanged where they already
    /// enclose it, and moved out to it, and no further, where they do not.
    pub open spec fn widened(self, s: ValuedSample) -> Bounds {
        Bounds {
            x_min: earlier(self.x_min, s.timestamp),
            x_max: later(self.x_max, s.timestamp),
            y_min: lower(self.y_min, s.value),
            y_max: higher(self.y_max, s.value),
        }
    }

    /// The extent of one sample.
    pub fn at(s: &ValuedSample) -> (r: Bounds)
        ensures
            r == Bounds::spec_at(*s),
    {
        Bounds { x_min: s.timestamp, x_max: s.timestamp, y_min: s.value, y_max: s.value }
    }

    /// The bounds widened to enclose the sample.
    pub fn widen(&self, s: &ValuedSample) -> (r: Bounds)
        ensures
            r == self.widened(*s),
    {
        let t: i64 = s.timestamp.to_millis();
        Bounds {
            x_min: if t < self.x_min.to_millis() {
                s.timestamp
            } else {
                self.x_min
            },
            x_max: if self.x_max.to_millis() < t {
                s.timestamp
            } else {
                self.x_max
            },
            y_min: if s.value.total_lt(&self.y_min) {
                s.value
            } else {
                self.y_min
            },
            y_max: if self.y_max.total_lt(&s.value) {
                s.value
            } else {
                self.y_max
            },
        }
    }

    /// The extent of the valued samples: the first and the last of their
    /// timestamps, and the lowest and the highest of their values in the total
    /// order. Without a sample there is no extent.
    pub fn of(samples: &[ValuedSample]) -> (r: Result<Bounds, EmptySeriesError>)
        ensures
            r is Err <==> samples@.len() == 0,
            r matches Ok(b) ==> b.is_extent_of(samples@),
    {
        if samples.len() == 0 {
            return Err(EmptySeriesError);
        }
        let mut bounds = Bounds::at(&samples[0]);
        proof {
            Bounds::lemma_extent_of_one(samples@[0]);
            assert(samples@.take(1) == seq![samples@[0]]);
        }
        let mut i: usize = 1;
        while i < samples.len()
            invariant
                1 <= i <= samples@.len(),
                bounds.is_extent_of(samples@.take(i as int)),
            decreases samples@.len() - i,
        {
            proof {
                Bounds::lemma_widened_is_extent(bounds, samples@.take(i as int), samples@[i as int]);
                assert(samples@.take(i as int).push(samples@[i as int]) == samples@.take(i + 1));
            }
            bounds = bounds.widen(&samples[i]);
            i = i + 1;
        }
        proof {
            assert(samples@.take(i as int) == samples@);
        }
        Ok(bounds)
    }

    /// Whether the timestamp lies within the X-domain.
    pub fn contains_timestamp(&self, t: &Timestamp) -> (r: bool)
        ensures
            r == self.spans(*t),
    {
        let m: i64 = t.to_millis();
        self.x_min.to_millis() <= m && m <= self.x_max.to_millis()
    }

    /// One sample is its own extent.
    pub proof fn lemma_extent_of_one(s: ValuedSample)
        ensures
            Bounds::spec_at(s).is_extent_of(seq![s]),
    {
        let v = seq![s];
        assert(v[0] == s);
    }

    /// An extent is not empty: its lower ends are not above its upper ends.
    pub proof fn lemma_extent_ordered(v: Seq<ValuedSample>, b: Bounds)
        requires
            b.is_extent_of(v),
        ensures
            b.x_min.millis() <= b.x_max.millis(),
            b.y_min.key() <= b.y_max.key(),
    {
    }

    /// A series has at most one extent.
    pub proof fn lemma_extent_unique(v: Seq<ValuedSample>, a: Bounds, b: Bounds)
        requires
            a.is_extent_of(v),
            b.is_extent_of(v),
        ensures
            a == b,
    {
        Timestamp::lemma_millis_determine(a.x_min, b.x_min);
        Timestamp::lemma_millis_determine(a.x_max, b.x_max);
        Value::lemma_key_determines(a.y_min, b.y_min);
        Value::lemma_key_determines(a.y_max, b.y_max);
    }

    /// The extent of a series with one more sample at its end is the extent of
    /// the series, widened to the sample.
    pub proof fn lemma_widened_is_extent(b: Bounds, v: Seq<ValuedSample>, s: ValuedSample)
        requires
            b.is_extent_of(v),
        ensures
            b.widened(s).is_extent_of(v.push(s)),
    {
        Bounds::lemma_widened_is_extent_at(b, v, v.len() as int, s);
        assert(v.insert(v.len() as int, s) == v.push(s));
    }

    /// The extent of a series with one more sample, at any place, is the extent
    /// of the series, widened to the sample.
    pub proof fn lemma_widened_is_extent_at(
        b: Bounds,
        v: Seq<ValuedSample>,
        at: int,
        s: ValuedSample,
    )
        requires
            b.is_extent_of(v),
            0 <= at <= v.len(),
        ensures
            b.widened(s).is_extent_of(v.insert(at, s)),
    {
        let w = v.insert(at, s);
        let wide = b.widened(s);
        assert forall|i: int| 0 <= i < w.len() implies wide.encloses(#[trigger] w[i]) by {}
        let place = |i: int| if i < at { i } else { i + 1 };
        let i0 = choose|i: int| 0 <= i < v.len() && (#[trigger] v[i]).timestamp == b.x_min;
        let i1 = choose|i: int| 0 <= i < v.len() && (#[trigger] v[i]).timestamp == b.x_max;
        let i2 = choose|i: int| 0 <= i < v.len() && (#[trigger] v[i]).value == b.y_min;
        let i3 = choose|i: int| 0 <= i < v.len() && (#[trigger] v[i]).value == b.y_max;
        assert(w[place(i0)].timestamp == wide.x_min || w[at].timestamp == wide.x_min);
        assert(w[place(i1)].timestamp == wide.x_max || w[at].timestamp == wide.x_max);
        assert(w[place(i2)].value == wide.y_min || w[at].value == wide.y_min);
        assert(w[place(i3)].value == wide.y_max || w[at].value == wide.y_max);
    }
}

/// Bounds under insertion. A sample without a value, put into a series at any
/// place, leaves the extent of the series as it was. A sample with a value widens
/// the extent to itself: a bound that its timestamp or value lies beyond moves out
/// to exactly that timestamp or value, and every other bound stays.
pub proof fn lemma_bounds_under_insertion(
    s: Seq<Sample>,
    at: int,
    sample: Sample,
    before: Bounds,
    after: Bounds,
)
    requires
        0 <= at <= s.len(),
        before.is_extent_of(valued(s)),
        after.is_extent_of(valued(s.insert(at, sample))),
    ensures
        sample.value is None ==> after == before,
        sample.spec_valued() matches Some(v) ==> {
            &&& after == before.widened(v)
            &&& after.x_min == (if v.timestamp.millis() < before.x_min.millis() {
                v.timestamp
            } else {
                before.x_min
            })
            &&& after.x_max == (if v.timestamp.millis() > before.x_max.millis() {
                v.timestamp
            } else {
                before.x_max
            })
            &&& after.y_min == (if v.value.key() < before.y_min.key() {
                v.value
            } else {
                before.y_min
            })
            &&& after.y_max == (if v.value.key() > before.y_max.key() {
                v.value
            } else {
                before.y_max
            })
        },
{
    lemma_valued_insert(s, at, sample);
    match sample.spec_valued() {
        Some(v) => {
            let place = valued(s.take(at)).len() as int;
            crate::series::lemma_valued_concat(s.take(at), s.skip(at));
            assert(s == s.take(at) + s.skip(at));
            Bounds::lemma_widened_is_extent_at(before, valued(s), place, v);
            Bounds::lemma_extent_unique(valued(s.insert(at, sample)), after, before.widened(v));
        },
        None => {
            Bounds::lemma_extent_unique(valued(s), after, before);
        },
    }
}

/// Where the samples of a series are in the order of their timestamps, its X-domain
/// runs from its first sample with a value to its last.
pub proof fn lemma_ascending_domain(s: Seq<Sample>, b: Bounds)
    requires
        ascending(s),
        b.is_extent_of(valued(s)),
    ensures
        b.x_min == valued(s).first().timestamp,
        b.x_max == valued(s).last().timestamp,
{
    let v = valued(s);
    let ix = valued_indices(s);
    lemma_valued_within(s);
    assert forall|j: int, k: int| 0 <= j <= k < v.len() implies v[j].timestamp.millis()
        <= v[k].timestamp.millis() by {
        assert(ix[j] <= ix[k]);
    }
    Timestamp::lemma_millis_determine(b.x_min, v.first().timestamp);
    Timestamp::lemma_millis_determine(b.x_max, v.last().timestamp);
}

/// The first sample with a value that comes into a series is its extent.
pub proof fn lemma_bounds_of_first_value(s: Seq<Sample>, at: int, sample: Sample, after: Bounds)
    requires
        0 <= at <= s.len(),
        valued(s).len() == 0,
        after.is_extent_of(valued(s.insert(at, sample))),
    ensures
        sample.spec_valued() matches Some(v) && after == Bounds::spec_at(v),
{
    lemma_valued_insert(s, at, sample);
    match sample.spec_valued() {
        Some(v) => {
            crate::series::lemma_valued_concat(s.take(at), s.skip(at));
            assert(s == s.take(at) + s.skip(at));
            Bounds::lemma_extent_of_one(v);
            Bounds::lemma_extent_unique(seq![v], after, Bounds::spec_at(v));
        },
        None => {},
    }
}

} // verus!
