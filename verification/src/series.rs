//! Series of samples, and the view of a series that keeps only the samples with a
//! value.

use crate::error::{MalformedAt, MalformedSampleError};
use crate::sample::{decoded, RawEntry, Sample, ValuedSample};
use vstd::prelude::*;

verus! {

/// The samples of `s` that have a value, in the order in which `s` holds them.
pub open spec fn valued(s: Seq<Sample>) -> Seq<ValuedSample>
    decreases s.len(),
{
    if s.len() == 0 {
        Seq::empty()
    } else {
        match s.last().spec_valued() {
            Some(v) => valued(s.drop_last()).push(v),
            None => valued(s.drop_last()),
        }
    }
}

/// Whether `v[k]` is `s[indices[k]]` for each `k`, with `indices` ascending: `v` is
/// made of samples of `s`, each with its timestamp and value, in the order of `s`.
pub open spec fn embeds(v: Seq<ValuedSample>, s: Seq<Sample>, indices: Seq<int>) -> bool {
    &&& indices.len() == v.len()
    &&& forall|k: int|
        0 <= k < v.len() ==> 0 <= #[trigger] indices[k] < s.len() && s[indices[k]].spec_valued()
            == Some(v[k])
    &&& forall|j: int, k: int| 0 <= j < k < v.len() ==> indices[j] < indices[k]
}

/// The places in `s` of the samples that have a value, ascending.
pub open spec fn valued_indices(s: Seq<Sample>) -> Seq<int>
    decreases s.len(),
{
    if s.len() == 0 {
        Seq::empty()
    } else if s.last().value is Some {
        valued_indices(s.drop_last()).push(s.len() - 1)
    } else {
        valued_indices(s.drop_last())
    }
}

/// The valued samples are no more than the samples, and each of them is a sample of
/// the series, with its timestamp and value, at the place `valued_indices` gives;
/// the places ascend, so the order of the series is kept.
pub proof fn lemma_valued_within(s: Seq<Sample>)
    ensures
        valued(s).len() <= s.len(),
        embeds(valued(s), s, valued_indices(s)),
        forall|k: int|
            0 <= k < valued(s).len() ==> exists|i: int|
                0 <= i < s.len() && s[i].timestamp == (#[trigger] valued(s)[k]).timestamp
                    && s[i].value == Some(valued(s)[k].value),
    decreases s.len(),
{
    if s.len() > 0 {
        let head = s.drop_last();
        lemma_valued_within(head);
        let v = valued(s);
        let ix = valued_indices(s);
        assert forall|k: int| 0 <= k < v.len() implies 0 <= #[trigger] ix[k] < s.len()
            && s[ix[k]].spec_valued() == Some(v[k]) by {}
        assert forall|j: int, k: int| 0 <= j < k < v.len() implies ix[j] < ix[k] by {}
        assert forall|k: int| 0 <= k < v.len() implies exists|i: int|
            0 <= i < s.len() && s[i].timestamp == (#[trigger] v[k]).timestamp && s[i].value
                == Some(v[k].value) by {
            assert(s[ix[k]].spec_valued() == Some(v[k]));
        }
    }
}

/// No sample with a value is left out: each is among the valued samples.
pub proof fn lemma_valued_complete(s: Seq<Sample>, i: int)
    requires
        0 <= i < s.len(),
        s[i].value is Some,
    ensures
        exists|k: int| 0 <= k < valued(s).len() && Some(valued(s)[k]) == s[i].spec_valued(),
    decreases s.len(),
{
    if i == s.len() - 1 {
        let k = valued(s).len() - 1;
        assert(Some(valued(s)[k]) == s[i].spec_valued());
    } else {
        let head = s.drop_last();
        lemma_valued_complete(head, i);
        let k = choose|k: int|
            0 <= k < valued(head).len() && Some(valued(head)[k]) == head[i].spec_valued();
        assert(Some(valued(s)[k]) == s[i].spec_valued());
    }
}

/// The valued samples of two series laid end to end are those of the first
/// followed by those of the second.
pub proof fn lemma_valued_concat(a: Seq<Sample>, b: Seq<Sample>)
    ensures
        valued(a + b) == valued(a) + valued(b),
    decreases b.len(),
{
    if b.len() > 0 {
        lemma_valued_concat(a, b.drop_last());
        assert((a + b).drop_last() == a + b.drop_last());
        match b.last().spec_valued() {
            Some(v) => {
                assert((valued(a) + valued(b.drop_last())).push(v) == valued(a) + valued(
                    b.drop_last(),
                ).push(v));
            },
            None => {},
        }
    }
}

/// A sample without a value, put into a series at any place, leaves the valued
/// samples as they were; one with a value comes to stand among them, after those
/// of the samples before it.
pub proof fn lemma_valued_insert(s: Seq<Sample>, at: int, sample: Sample)
    requires
        0 <= at <= s.len(),
    ensures
        sample.value is None ==> valued(s.insert(at, sample)) == valued(s),
        sample.spec_valued() matches Some(v) ==> valued(s.insert(at, sample)) == valued(
            s,
        ).insert(valued(s.take(at)).len() as int, v),
{
    let front = s.take(at);
    let back = s.skip(at);
    let one = seq![sample];
    assert(s == front + back);
    assert(s.insert(at, sample) == front + one + back);
    lemma_valued_concat(front, back);
    lemma_valued_concat(front, one);
    lemma_valued_concat(front + one, back);
    assert(valued(one.drop_last()) == Seq::<ValuedSample>::empty());
    match sample.spec_valued() {
        Some(v) => {
            assert(valued(front) + seq![v] + valued(back) == (valued(front) + valued(
                back,
            )).insert(valued(front).len() as int, v));
        },
        None => {},
    }
}

/// Whether no sample of `s` is earlier than one before it.
pub open spec fn ascending(s: Seq<Sample>) -> bool {
    forall|i: int, j: int|
        0 <= i <= j < s.len() ==> (#[trigger] s[i]).timestamp.millis() <= (
        #[trigger] s[j]).timestamp.millis()
}

/// An ordered sequence of samples. The order is the order of the payload: nothing
/// sorts it.
#[derive(Debug, PartialEq, Eq)]
pub struct Series {
    samples: Vec<Sample>,
}

impl View for Series {
    type V = Seq<Sample>;

    closed spec fn view(&self) -> Seq<Sample> {
        self.samples@
    }
}

/// What the entries of a series decode to: their samples in order, or the first
/// entry that is no sample.
pub open spec fn decoded_series(raw: Seq<RawEntry>) -> Result<Seq<Sample>, MalformedAt>
    decreases raw.len(),
{
    if raw.len() == 0 {
        Ok(Seq::empty())
    } else {
        match decoded_series(raw.drop_last()) {
            Err(e) => Err(e),
            Ok(samples) => match decoded(raw.last()) {
                Ok(sample) => Ok(samples.push(sample)),
                Err(cause) => Err(MalformedAt { index: (raw.len() - 1) as usize, cause }),
            },
        }
    }
}

/// A series decodes where each of its entries does, sample by sample; where one
/// does not, it fails with the first such entry, and every entry before that one is
/// a sample.
pub proof fn lemma_decoded_series(raw: Seq<RawEntry>)
    requires
        raw.len() <= usize::MAX,
    ensures
        match decoded_series(raw) {
            Ok(samples) => {
                &&& samples.len() == raw.len()
                &&& forall|i: int|
                    #![trigger raw[i]]
                    #![trigger samples[i]]
                    0 <= i < raw.len() ==> decoded(raw[i]) == Ok::<_, MalformedSampleError>(
                        samples[i],
                    )
            },
            Err(e) => {
                &&& e.index < raw.len()
                &&& decoded(raw[e.index as int]) == Err::<Sample, _>(e.cause)
                &&& forall|j: int| 0 <= j < e.index ==> decoded(#[trigger] raw[j]) is Ok
            },
        },
    decreases raw.len(),
{
    if raw.len() > 0 {
        let head = raw.drop_last();
        lemma_decoded_series(head);
        match decoded_series(head) {
            Ok(samples) => {
                assert forall|j: int| 0 <= j < head.len() implies decoded(
                    #[trigger] raw[j],
                ) is Ok by {
                    assert(head[j] == raw[j]);
                }
            },
            Err(e) => {
                assert forall|j: int| 0 <= j < e.index implies decoded(
                    #[trigger] raw[j],
                ) is Ok by {
                    assert(head[j] == raw[j]);
                }
            },
        }
    }
}

/// A failure among the first entries of a series is the failure of the series.
pub proof fn lemma_decoded_series_prefix(raw: Seq<RawEntry>, n: int)
    requires
        0 <= n <= raw.len(),
    ensures
        decoded_series(raw.take(n)) is Err ==> decoded_series(raw) == decoded_series(raw.take(n)),
    decreases raw.len() - n,
{
    if n < raw.len() {
        assert(raw.take(n + 1).drop_last() == raw.take(n));
        lemma_decoded_series_prefix(raw, n + 1);
    } else {
        assert(raw.take(n) == raw);
    }
}

impl Series {
    /// The series of the given samples.
    pub fn new(samples: Vec<Sample>) -> (r: Series)
        ensures
            r@ == samples@,
    {
        Series { samples }
    }

    /// Decodes the entries of a series, each as `[timestampMillis, valueOrNull]`. The
    /// first entry that is no sample fails the whole series.
    pub fn decode(raw: &Vec<RawEntry>) -> (r: Result<Series, MalformedAt>)
        ensures
            match r {
                Ok(series) => decoded_series(raw@) == Ok::<_, MalformedAt>(series@),
                Err(e) => decoded_series(raw@) == Err::<Seq<Sample>, _>(e),
            },
    {
        let mut samples: Vec<Sample> = Vec::new();
        let mut i: usize = 0;
        while i < raw.len()
            invariant
                i <= raw@.len(),
                decoded_series(raw@.take(i as int)) == Ok::<_, MalformedAt>(samples@),
            decreases raw@.len() - i,
        {
            proof {
                assert(raw@.take(i + 1).drop_last() == raw@.take(i as int));
                lemma_decoded_series_prefix(raw@, i + 1);
            }
            match Sample::decode(&raw[i]) {
                Ok(sample) => {
                    samples.push(sample);
                },
                Err(cause) => {
                    return Err(MalformedAt { index: i, cause });
                },
            }
            i = i + 1;
        }
        proof {
            assert(raw@.take(i as int) == raw@);
        }
        Ok(Series { samples })
    }

    /// All samples, in stored order.
    pub fn samples(&self) -> (r: &Vec<Sample>)
        ensures
            r@ == self@,
    {
        &self.samples
    }

    /// The number of samples.
    pub fn len(&self) -> (r: usize)
        ensures
            r == self@.len(),
    {
        self.samples.len()
    }

    /// Whether the samples are in the order of their timestamps. Nothing in the
    /// library asks for that order; a caller who wants it can check it here.
    pub fn is_ascending(&self) -> (r: bool)
        ensures
            r == ascending(self@),
    {
        if self.samples.len() == 0 {
            return true;
        }
        let mut i: usize = 1;
        while i < self.samples.len()
            invariant
                1 <= i <= self.samples@.len(),
                ascending(self.samples@.take(i as int)),
            decreases self.samples@.len() - i,
        {
            if self.samples[i].timestamp.to_millis() < self.samples[i - 1].timestamp.to_millis() {
                return false;
            }
            proof {
                let now = self.samples@.take(i as int);
                let next = self.samples@.take(i + 1);
                assert forall|a: int, b: int| 0 <= a <= b < next.len() implies (
                #[trigger] next[a]).timestamp.millis() <= (#[trigger] next[b]).timestamp.millis() by {
                    if a < i <= b {
                        assert(now[a] == next[a] && now[i - 1] == next[i - 1]);
                    }
                }
            }
            i = i + 1;
        }
        proof {
            assert(self.samples@.take(i as int) == self.samples@);
        }
        true
    }

    /// The samples that have a value, in stored order.
    pub fn valued_samples(&self) -> (r: Vec<ValuedSample>)
        ensures
            r@ == valued(self@),
    {
        let mut out: Vec<ValuedSample> = Vec::new();
        let mut i: usize = 0;
        while i < self.samples.len()
            invariant
                i <= self.samples@.len(),
                out@ == valued(self.samples@.take(i as int)),
            decreases self.samples@.len() - i,
        {
            proof {
                assert(self.samples@.take(i + 1).drop_last() == self.samples@.take(i as int));
            }
            match self.samples[i].valued() {
                Some(v) => {
                    out.push(v);
                },
                None => {},
            }
            i = i + 1;
        }
        proof {
            assert(self.samples@.take(i as int) == self.samples@);
        }
        out
    }
}

} // verus!
