//! A family of gauges: one current value per set of label values, as a
//! Prometheus metric family holds them.

use crate::decimal::{reading_of, Reading, ReadingView};
use vstd::prelude::*;

verus! {

/// The label values of a sample, in the family's label order.
pub type LabelValues = Seq<Seq<char>>;

/// One gauge of a family: its label values and its current value.
pub struct Sample {
    pub labels: Vec<String>,
    pub value: Reading,
}

pub open spec fn sample_key(s: Sample) -> LabelValues {
    s.labels.deep_view()
}

/// No two samples have the same label values.
pub open spec fn keys_unique(s: Seq<Sample>) -> bool {
    forall|i: int, j: int|
        0 <= i < j < s.len() ==> sample_key(#[trigger] s[i]) != sample_key(#[trigger] s[j])
}

/// The values of the samples, by label values.
pub open spec fn map_of(s: Seq<Sample>) -> Map<LabelValues, ReadingView>
    decreases s.len(),
{
    if s.len() == 0 {
        Map::empty()
    } else {
        map_of(s.drop_last()).insert(sample_key(s.last()), s.last().value@)
    }
}

/// What `map_of` holds: the keys of the samples, each with its sample's value.
pub proof fn lemma_map_of(s: Seq<Sample>)
    requires
        keys_unique(s),
    ensures
        forall|k: LabelValues|
            #[trigger] map_of(s).contains_key(k) <==> exists|i: int|
                0 <= i < s.len() && sample_key(#[trigger] s[i]) == k,
        forall|i: int| 0 <= i < s.len() ==> #[trigger] map_of(s)[sample_key(s[i])] == s[i].value@,
    decreases s.len(),
{
    if s.len() > 0 {
        let t = s.drop_last();
        assert(keys_unique(t));
        lemma_map_of(t);
        assert forall|k: LabelValues| #[trigger] map_of(s).contains_key(k) <==> exists|i: int|
            0 <= i < s.len() && sample_key(#[trigger] s[i]) == k by {
            if k == sample_key(s.last()) {
                assert(sample_key(s[s.len() - 1]) == k);
            } else {
                if map_of(s).contains_key(k) {
                    assert(map_of(t).contains_key(k));
                    let i = choose|i: int| 0 <= i < t.len() && sample_key(#[trigger] t[i]) == k;
                    assert(s[i] == t[i]);
                    assert(sample_key(s[i]) == k);
                }
                if exists|i: int| 0 <= i < s.len() && sample_key(#[trigger] s[i]) == k {
                    let i = choose|i: int| 0 <= i < s.len() && sample_key(#[trigger] s[i]) == k;
                    assert(i < s.len() - 1);
                    assert(t[i] == s[i]);
                    assert(sample_key(t[i]) == k);
                    assert(map_of(t).contains_key(k));
                }
            }
        }
        assert forall|i: int| 0 <= i < s.len() implies #[trigger] map_of(s)[sample_key(s[i])]
            == s[i].value@ by {
            if i < s.len() - 1 {
                assert(t[i] == s[i]);
                assert(sample_key(s[i]) != sample_key(s[s.len() - 1]));
                assert(map_of(t)[sample_key(t[i])] == t[i].value@);
            }
        }
    }
}

/// A gauge family whose samples have distinct label values.
pub struct GaugeFamily {
    samples: Vec<Sample>,
}

impl GaugeFamily {
    /// The samples, in the order they were first set.
    pub closed spec fn entries(&self) -> Seq<Sample> {
        self.samples@
    }

    /// The family's current values, by label values.
    pub open spec fn view(&self) -> Map<LabelValues, ReadingView> {
        map_of(self.entries())
    }

    /// Well-formedness: label values are not repeated.
    pub open spec fn wf(&self) -> bool {
        keys_unique(self.entries())
    }

    /// An empty family.
    pub fn new() -> (r: GaugeFamily)
        ensures
            r.wf(),
            r.view() == Map::<LabelValues, ReadingView>::empty(),
            r.entries().len() == 0,
    {
        GaugeFamily { samples: Vec::new() }
    }

    /// The samples (what an exporter publishes).
    pub fn samples(&self) -> (r: &Vec<Sample>)
        ensures
            r@ == self.entries(),
    {
        &self.samples
    }

    /// Set the gauge with label values `labels` to `value`, creating it when the
    /// family has none with those label values.
    pub fn set(&mut self, labels: Vec<String>, value: Reading)
        requires
            old(self).wf(),
        ensures
            final(self).wf(),
            final(self).view() == old(self).view().insert(labels.deep_view(), value@),
    {
        let ghost key = labels.deep_view();
        let ghost before = self.samples@;
        proof {
            lemma_map_of(before);
        }
        let n = self.samples.len();
        let mut i: usize = 0;
        while i < n
            invariant
                n == self.samples.len(),
                i <= n,
                self.samples@ == before,
                old(self).entries() == before,
                keys_unique(before),
                key == labels.deep_view(),
                forall|j: int| 0 <= j < i ==> sample_key(#[trigger] before[j]) != key,
            decreases n - i,
        {
            let same = labels_equal(&self.samples[i].labels, &labels);
            assert(same == (sample_key(before[i as int]) == key));
            if same {
                let ghost old_sample = before[i as int];
                self.samples.set(i, Sample { labels, value });
                proof {
                    let after = self.samples@;
                    assert(after[i as int] == (Sample { labels, value }));
                    assert(forall|j: int| 0 <= j < after.len() && j != i ==> after[j] == before[j]);
                    assert(sample_key(after[i as int]) == key);
                    assert forall|a: int, b: int|
                        0 <= a < b < after.len() implies sample_key(#[trigger] after[a])
                        != sample_key(#[trigger] after[b]) by {
                        if a != i && b != i {
                            assert(after[a] == before[a] && after[b] == before[b]);
                        } else if a == i {
                            assert(after[b] == before[b]);
                            assert(sample_key(before[a]) != sample_key(before[b]));
                        } else {
                            assert(after[a] == before[a]);
                            assert(sample_key(before[a]) != sample_key(before[b]));
                        }
                    }
                    lemma_map_of(after);
                    Self::lemma_same_map_after_update(before, after, i as int, key, value@);
                    assert(self.entries() == after);
                    assert(old(self).entries() == before);
                }
                return;
            }
            i = i + 1;
        }
        self.samples.push(Sample { labels, value });
        proof {
            let after = self.samples@;
            assert(after.drop_last() =~= before);
            assert forall|a: int, b: int|
                0 <= a < b < after.len() implies sample_key(#[trigger] after[a]) != sample_key(
                #[trigger] after[b],
            ) by {
                if b < after.len() - 1 {
                    assert(after[a] == before[a] && after[b] == before[b]);
                } else {
                    assert(after[a] == before[a]);
                }
            }
        }
    }

    proof fn lemma_same_map_after_update(
        before: Seq<Sample>,
        after: Seq<Sample>,
        i: int,
        key: LabelValues,
        value: ReadingView,
    )
        requires
            0 <= i < before.len(),
            after.len() == before.len(),
            keys_unique(before),
            keys_unique(after),
            sample_key(before[i]) == key,
            sample_key(after[i]) == key,
            after[i].value@ == value,
            forall|j: int| 0 <= j < after.len() && j != i ==> after[j] == before[j],
        ensures
            map_of(after) == map_of(before).insert(key, value),
    {
        lemma_map_of(before);
        lemma_map_of(after);
        let m1 = map_of(after);
        let m2 = map_of(before).insert(key, value);
        assert forall|k: LabelValues| m1.contains_key(k) <==> m2.contains_key(k) by {
            if m1.contains_key(k) {
                let j = choose|j: int| 0 <= j < after.len() && sample_key(#[trigger] after[j]) == k;
                if j != i {
                    assert(after[j] == before[j]);
                    assert(map_of(before).contains_key(sample_key(before[j])));
                }
            }
            if m2.contains_key(k) && k != key {
                let j = choose|j: int|
                    0 <= j < before.len() && sample_key(#[trigger] before[j]) == k;
                assert(after[j] == before[j]);
                assert(m1.contains_key(sample_key(after[j])));
            }
            if k == key {
                assert(m1.contains_key(sample_key(after[i])));
            }
        }
        assert forall|k: LabelValues| m1.contains_key(k) implies m1[k] == m2[k] by {
            let j = choose|j: int| 0 <= j < after.len() && sample_key(#[trigger] after[j]) == k;
            if j != i {
                assert(after[j] == before[j]);
                assert(m1[sample_key(after[j])] == after[j].value@);
                assert(map_of(before)[sample_key(before[j])] == before[j].value@);
            } else {
                assert(m1[sample_key(after[i])] == after[i].value@);
            }
        }
        assert(m1 =~= m2);
    }

    /// The current value of the gauge with label values `labels`, if it has been set.
    pub fn get(&self, labels: &Vec<String>) -> (r: Option<Reading>)
        requires
            self.wf(),
        ensures
            reading_of(r) == (if self.view().contains_key(labels.deep_view()) {
                Some(self.view()[labels.deep_view()])
            } else {
                None
            }),
    {
        let mut i: usize = 0;
        while i < self.samples.len()
            invariant
                i <= self.samples.len(),
                keys_unique(self.samples@),
                forall|j: int| 0 <= j < i ==> sample_key(#[trigger] self.samples@[j]) != labels.deep_view(),
            decreases self.samples.len() - i,
        {
            let same = labels_equal(&self.samples[i].labels, labels);
            assert(same == (sample_key(self.samples@[i as int]) == labels.deep_view()));
            if same {
                proof {
                    lemma_map_of(self.samples@);
                    assert(map_of(self.samples@)[sample_key(self.samples@[i as int])]
                        == self.samples@[i as int].value@);
                    assert(map_of(self.samples@).contains_key(sample_key(self.samples@[i as int])));
                }
                return Some(self.samples[i].value.duplicate());
            }
            i = i + 1;
        }
        proof {
            lemma_map_of(self.samples@);
        }
        None
    }
}

/// Whether two label value lists are equal.
pub fn labels_equal(a: &Vec<String>, b: &Vec<String>) -> (r: bool)
    ensures
        r == (a.deep_view() == b.deep_view()),
{
    if a.len() != b.len() {
        proof {
            assert(a.deep_view().len() != b.deep_view().len());
        }
        return false;
    }
    let mut i: usize = 0;
    while i < a.len()
        invariant
            a.len() == b.len(),
            i <= a.len(),
            forall|j: int| 0 <= j < i ==> a@[j]@ == b@[j]@,
        decreases a.len() - i,
    {
        if a[i] != b[i] {
            proof {
                assert(a.deep_view()[i as int] != b.deep_view()[i as int]);
            }
            return false;
        }
        i = i + 1;
    }
    proof {
        assert(a.deep_view() =~= b.deep_view()) by {
            assert forall|j: int| 0 <= j < a.len() implies a.deep_view()[j] == b.deep_view()[j] by {
                assert(a@[j]@ == b@[j]@);
            }
        }
    }
    true
}

} // verus!
