use vstd::prelude::*;

verus! {

/// Sum of a sequence of counts.
pub open spec fn sum_counts(s: Seq<u64>) -> nat
    decreases s.len(),
{
    if s.len() == 0 {
        0
    } else {
        sum_counts(s.drop_last()) + s.last() as nat
    }
}

/// The counts of label/count pairs, in order.
pub open spec fn pair_counts(s: Seq<(String, u64)>) -> Seq<u64> {
    s.map_values(|p: (String, u64)| p.1)
}

proof fn lemma_sum_push(s: Seq<u64>, x: u64)
    ensures
        sum_counts(s.push(x)) == sum_counts(s) + x,
{
    assert(s.push(x).drop_last() =~= s);
}

proof fn lemma_sum_update(s: Seq<u64>, i: int, v: u64)
    requires
        0 <= i < s.len(),
    ensures
        sum_counts(s.update(i, v)) + s[i] == sum_counts(s) + v,
        s[i] <= sum_counts(s),
    decreases s.len(),
{
    if i == s.len() - 1 {
        assert(s.update(i, v).drop_last() =~= s.drop_last());
    } else {
        lemma_sum_update(s.drop_last(), i, v);
        assert(s.update(i, v).drop_last() =~= s.drop_last().update(i, v));
    }
}

/// Occurrence count per error label, grown as errors are classified and
/// never pre-populated.
pub struct ErrorTally {
    labels: Vec<String>,
    counts: Vec<u64>,
    model: Ghost<Map<Seq<char>, u64>>,
}

impl View for ErrorTally {
    type V = Map<Seq<char>, u64>;

    closed spec fn view(&self) -> Map<Seq<char>, u64> {
        self.model@
    }
}

impl ErrorTally {
    /// The label columns line up with the count column, no label repeats,
    /// and the model maps exactly the stored labels to their counts.
    pub closed spec fn wf(&self) -> bool {
        &&& self.labels.len() == self.counts.len()
        &&& forall|i: int| 0 <= i < self.counts.len() ==> #[trigger] self.counts[i] >= 1
        &&& forall|i: int, j: int|
            0 <= i < j < self.labels.len() ==> self.labels[i]@ != self.labels[j]@
        &&& forall|i: int|
            0 <= i < self.labels.len() ==> #[trigger] self.model@.contains_key(self.labels[i]@)
                && self.model@[self.labels[i]@] == self.counts[i]
        &&& forall|k: Seq<char>|
            #[trigger] self.model@.contains_key(k) ==> exists|i: int|
                0 <= i < self.labels.len() && self.labels[i]@ == k
    }

    /// Sum of all counts: how many occurrences were tallied.
    pub closed spec fn total_spec(&self) -> nat {
        sum_counts(self.counts@)
    }

    /// An empty tally.
    pub fn new() -> (r: ErrorTally)
        ensures
            r.wf(),
            r@ == Map::<Seq<char>, u64>::empty(),
            r.total_spec() == 0,
    {
        ErrorTally { labels: Vec::new(), counts: Vec::new(), model: Ghost(Map::empty()) }
    }

    /// Number of distinct labels.
    pub fn len(&self) -> (r: usize)
        requires
            self.wf(),
        ensures
            r == self@.dom().len(),
    {
        proof {
            self.lemma_dom_len();
        }
        self.labels.len()
    }

    proof fn lemma_dom_len(&self)
        requires
            self.wf(),
        ensures
            self@.dom().len() == self.labels.len(),
            self@.dom().finite(),
    {
        let keys = self.labels@.map_values(|s: String| s@);
        assert forall|i: int, j: int| 0 <= i < j < keys.len() implies keys[i] != keys[j] by {}
        assert(keys.no_duplicates());
        keys.unique_seq_to_set();
        assert(keys.to_set() =~= self@.dom()) by {
            assert forall|k: Seq<char>| self@.dom().contains(k) implies keys.to_set().contains(k) by {
                let i = choose|i: int| 0 <= i < self.labels.len() && self.labels[i]@ == k;
                assert(keys[i] == k);
            }
            assert forall|k: Seq<char>| keys.to_set().contains(k) implies self@.dom().contains(k) by {
                let i = choose|i: int| 0 <= i < keys.len() && keys[i] == k;
                assert(self@.contains_key(self.labels[i]@));
            }
        }
    }

    /// How often `label` was tallied (zero when never).
    pub fn count(&self, label: &String) -> (r: u64)
        requires
            self.wf(),
        ensures
            r == (if self@.contains_key(label@) { self@[label@] } else { 0 }),
    {
        let mut i: usize = 0;
        while i < self.labels.len()
            invariant
                self.wf(),
                i <= self.labels.len(),
                forall|j: int| 0 <= j < i ==> self.labels[j]@ != label@,
            decreases self.labels.len() - i,
        {
            if self.labels[i] == *label {
                return self.counts[i];
            }
            i = i + 1;
        }
        proof {
            if self@.contains_key(label@) {
                let j = choose|j: int| 0 <= j < self.labels.len() && self.labels[j]@ == label@;
                assert(false);
            }
        }
        0
    }

    /// Adds one occurrence of `label`.
    pub fn record(&mut self, label: String)
        requires
            old(self).wf(),
            old(self).total_spec() < u64::MAX,
        ensures
            final(self).wf(),
            final(self).total_spec() == old(self).total_spec() + 1,
            final(self)@ == old(self)@.insert(
                label@,
                if old(self)@.contains_key(label@) {
                    (old(self)@[label@] + 1) as u64
                } else {
                    1
                },
            ),
    {
        let mut i: usize = 0;
        while i < self.labels.len()
            invariant
                self.wf(),
                *self == *old(self),
                old(self).total_spec() < u64::MAX,
                i <= self.labels.len(),
                forall|j: int| 0 <= j < i ==> self.labels[j]@ != label@,
            decreases self.labels.len() - i,
        {
            if self.labels[i] == label {
                let c = self.counts[i];
                proof {
                    lemma_sum_update(self.counts@, i as int, (c + 1) as u64);
                    assert(self.total_spec() == old(self).total_spec());
                    assert(c <= sum_counts(self.counts@));
                }
                let n = c + 1;
                self.counts.set(i, n);
                self.model = Ghost(self.model@.insert(label@, n));
                proof {
                    assert forall|k: Seq<char>| #[trigger] self.model@.contains_key(k) implies exists|j: int|
                        0 <= j < self.labels.len() && self.labels[j]@ == k by {
                        if k != label@ {
                            assert(old(self).model@.contains_key(k));
                            let j = choose|j: int|
                                0 <= j < old(self).labels.len() && old(self).labels[j]@ == k;
                            assert(self.labels[j]@ == k);
                        } else {
                            assert(self.labels[i as int]@ == k);
                        }
                    }
                }
                return;
            }
            i = i + 1;
        }
        proof {
            if old(self)@.contains_key(label@) {
                let j = choose|j: int| 0 <= j < self.labels.len() && self.labels[j]@ == label@;
                assert(false);
            }
        }
        let ghost key = label@;
        proof {
            lemma_sum_push(self.counts@, 1);
        }
        self.labels.push(label);
        self.counts.push(1);
        self.model = Ghost(self.model@.insert(key, 1));
        proof {
            let n = self.labels.len() - 1;
            assert(self.labels[n]@ == key);
            assert forall|k: Seq<char>| #[trigger] self.model@.contains_key(k) implies exists|j: int|
                0 <= j < self.labels.len() && self.labels[j]@ == k by {
                if k != key {
                    assert(old(self).model@.contains_key(k));
                    let j = choose|j: int| 0 <= j < old(self).labels.len() && old(self).labels[j]@ == k;
                    assert(self.labels[j]@ == k);
                } else {
                    assert(self.labels[n]@ == k);
                }
            }
            assert forall|a: int| 0 <= a < self.labels.len() implies #[trigger] self.model@.contains_key(self.labels[a]@)
                && self.model@[self.labels[a]@] == self.counts[a] by {
                if a < n {
                    assert(old(self).model@.contains_key(old(self).labels[a]@));
                }
            }
        }
    }

    /// The tally as label/count pairs, in order of first occurrence.
    pub fn entries(&self) -> (r: Vec<(String, u64)>)
        requires
            self.wf(),
        ensures
            r.len() == self@.dom().len(),
            forall|i: int| 0 <= i < r.len() ==> #[trigger] self@.contains_key(r[i].0@)
                && self@[r[i].0@] == r[i].1,
            forall|i: int| 0 <= i < r.len() ==> #[trigger] r[i].1 >= 1,
            forall|i: int, j: int| 0 <= i < j < r.len() ==> r[i].0@ != r[j].0@,
            sum_counts(pair_counts(r@)) == self.total_spec(),
    {
        proof {
            self.lemma_dom_len();
        }
        let mut out: Vec<(String, u64)> = Vec::new();
        let mut i: usize = 0;
        while i < self.labels.len()
            invariant
                self.wf(),
                i <= self.labels.len(),
                out.len() == i,
                forall|j: int| 0 <= j < i ==> (#[trigger] out@[j]).0@ == self.labels@[j]@ && out@[j].1 == self.counts@[j],
            decreases self.labels.len() - i,
        {
            let l = self.labels[i].clone();
            let ghost prev = out@;
            assert(l@ == self.labels[i as int]@);
            let c = self.counts[i];
            out.push((l, c));
            assert(out@ == prev.push((l, c)));
            proof {
                assert forall|j: int| 0 <= j < i + 1 implies (#[trigger] out@[j]).0@ == self.labels@[j]@
                    && out@[j].1 == self.counts@[j] by {
                    if j < i {
                        assert(out@[j] == prev[j]);
                    } else {
                        assert(out@[j] == (l, c));
                    }
                }
            }
            i = i + 1;
        }
        proof {
            assert forall|a: int| 0 <= a < out.len() implies #[trigger] self@.contains_key(out[a].0@)
                && self@[out[a].0@] == out[a].1 by {
                assert(out@[a].0@ == self.labels@[a]@);
                assert(self@.contains_key(self.labels[a]@));
            }
            assert forall|a: int| 0 <= a < out.len() implies #[trigger] out[a].1 >= 1 by {
                assert(out@[a].1 == self.counts@[a]);
            }
            assert forall|a: int, b: int| 0 <= a < b < out.len() implies out[a].0@ != out[b].0@ by {
                assert(out@[a].0@ == self.labels@[a]@);
                assert(out@[b].0@ == self.labels@[b]@);
            }
            assert(pair_counts(out@) =~= self.counts@) by {
                assert forall|a: int| 0 <= a < out.len() implies pair_counts(out@)[a] == self.counts@[a] by {
                    assert(out@[a].1 == self.counts@[a]);
                }
            }
        }
        out
    }
}

} // verus!
