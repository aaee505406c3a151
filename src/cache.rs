//! A table from pipeline keys to the outcome of specializing them: at most
//! one outcome is kept per key.
use vstd::prelude::*;
use crate::pipeline::PipelineKey;

verus! {

/// What specializing a key came to.
#[derive(Clone, Copy, Debug, PartialEq, Eq)]
pub enum CachedPipeline<H> {
    /// A compiled pipeline, identified by its handle.
    Compiled(H),
    /// The specialization failed; it is not retried while this is kept.
    Failed,
}

#[derive(Clone, Copy, Debug)]
struct CacheEntry<H> {
    key: PipelineKey,
    state: CachedPipeline<H>,
}

/// Compiled pipelines (or failures) per distinct key.
pub struct SpecializedPipelines<H> {
    entries: Vec<CacheEntry<H>>,
}

spec fn has_key<H>(s: Seq<CacheEntry<H>>, k: PipelineKey) -> bool {
    exists|i: int| 0 <= i < s.len() && s[i].key == k
}

spec fn entries_view<H>(s: Seq<CacheEntry<H>>) -> Map<PipelineKey, CachedPipeline<H>> {
    Map::new(
        |k: PipelineKey| has_key(s, k),
        |k: PipelineKey| s[choose|i: int| 0 <= i < s.len() && s[i].key == k].state,
    )
}

spec fn keys_unique<H>(s: Seq<CacheEntry<H>>) -> bool {
    forall|i: int, j: int| 0 <= i < s.len() && 0 <= j < s.len() && i != j ==> s[i].key != s[j].key
}

proof fn lemma_entry<H>(s: Seq<CacheEntry<H>>, i: int)
    requires
        keys_unique(s),
        0 <= i < s.len(),
    ensures
        entries_view(s).contains_key(s[i].key),
        entries_view(s)[s[i].key] == s[i].state,
{
    let k = s[i].key;
    assert(has_key(s, k));
    let j = choose|j: int| 0 <= j < s.len() && s[j].key == k;
    assert(j == i);
}

impl<H: Copy> View for SpecializedPipelines<H> {
    type V = Map<PipelineKey, CachedPipeline<H>>;

    closed spec fn view(&self) -> Map<PipelineKey, CachedPipeline<H>> {
        entries_view(self.entries@)
    }
}

/// The table after offering `outcome` for `key`: an outcome already kept wins.
pub open spec fn recorded<H>(
    m: Map<PipelineKey, CachedPipeline<H>>,
    key: PipelineKey,
    outcome: CachedPipeline<H>,
) -> Map<PipelineKey, CachedPipeline<H>> {
    if m.contains_key(key) {
        m
    } else {
        m.insert(key, outcome)
    }
}

/// The table with its failures dropped and its compiled pipelines kept.
pub open spec fn without_failures<H>(m: Map<PipelineKey, CachedPipeline<H>>) -> Map<
    PipelineKey,
    CachedPipeline<H>,
> {
    m.restrict(m.dom().filter(|k: PipelineKey| m[k] is Compiled))
}

impl<H: Copy> SpecializedPipelines<H> {
    /// No two entries share a key.
    pub closed spec fn wf(&self) -> bool {
        keys_unique(self.entries@)
    }

    pub fn new() -> (r: Self)
        ensures
            r.wf(),
            r@ == Map::<PipelineKey, CachedPipeline<H>>::empty(),
    {
        let r = SpecializedPipelines { entries: Vec::new() };
        assert(r@ =~= Map::<PipelineKey, CachedPipeline<H>>::empty());
        r
    }

    fn find(&self, key: &PipelineKey) -> (r: Option<usize>)
        requires
            self.wf(),
        ensures
            r is None ==> !self@.contains_key(*key),
            r is Some ==> r->0 < self.entries@.len() && self.entries@[r->0 as int].key == *key,
    {
        let mut i: usize = 0;
        while i < self.entries.len()
            invariant
                i <= self.entries@.len(),
                forall|j: int| 0 <= j < i ==> self.entries@[j].key != *key,
            decreases self.entries@.len() - i,
        {
            if self.entries[i].key == *key {
                return Some(i);
            }
            i = i + 1;
        }
        None
    }

    /// The outcome kept for `key`, if the key was specialized before.
    pub fn get(&self, key: &PipelineKey) -> (r: Option<CachedPipeline<H>>)
        requires
            self.wf(),
        ensures
            r is Some <==> self@.contains_key(*key),
            r is Some ==> r->0 == self@[*key],
    {
        match self.find(key) {
            Some(i) => {
                proof {
                    lemma_entry(self.entries@, i as int);
                }
                Some(self.entries[i].state)
            },
            None => None,
        }
    }

    /// Keeps `outcome` for `key` unless an outcome is kept already, and
    /// returns the one kept, so that callers that race on a key all end with
    /// the same handle.
    pub fn record(&mut self, key: PipelineKey, outcome: CachedPipeline<H>) -> (r: CachedPipeline<H>)
        requires
            old(self).wf(),
        ensures
            final(self).wf(),
            final(self)@ == recorded(old(self)@, key, outcome),
            r == final(self)@[key],
    {
        match self.find(&key) {
            Some(i) => {
                proof {
                    lemma_entry(self.entries@, i as int);
                }
                self.entries[i].state
            },
            None => {
                let ghost before = self.entries@;
                self.entries.push(CacheEntry { key, state: outcome });
                let ghost after = self.entries@;
                assert forall|k: PipelineKey| #[trigger] has_key(after, k) == (has_key(before, k) || k == key) by {
                    if has_key(before, k) {
                        let j = choose|j: int| 0 <= j < before.len() && before[j].key == k;
                        assert(after[j].key == k);
                    }
                    if k == key {
                        assert(after[before.len() as int].key == k);
                    }
                }
                assert forall|k: PipelineKey| has_key(before, k) implies self@[k] == old(self)@[k] by {
                    let j = choose|j: int| 0 <= j < before.len() && before[j].key == k;
                    lemma_entry(before, j);
                    lemma_entry(after, j);
                }
                proof {
                    lemma_entry(after, before.len() as int);
                }
                assert(self@ =~= old(self)@.insert(key, outcome));
                outcome
            },
        }
    }

    /// Drops the failed specializations so that they are attempted again,
    /// keeping every compiled pipeline.
    pub fn clear_failures(&mut self)
        requires
            old(self).wf(),
        ensures
            final(self).wf(),
            final(self)@ == without_failures(old(self)@),
    {
        let ghost before = self.entries@;
        let mut kept: Vec<CacheEntry<H>> = Vec::new();
        let mut i: usize = 0;
        while i < self.entries.len()
            invariant
                before == self.entries@,
                keys_unique(before),
                i <= before.len(),
                keys_unique(kept@),
                forall|j: int| 0 <= j < kept@.len() ==> (#[trigger] kept@[j]).state is Compiled,
                forall|j: int|
                    0 <= j < kept@.len() ==> exists|m: int|
                        0 <= m < i && before[m] == #[trigger] kept@[j],
                forall|m: int|
                    0 <= m < i && (#[trigger] before[m]).state is Compiled ==> exists|j: int|
                        0 <= j < kept@.len() && kept@[j] == before[m],
            decreases before.len() - i,
        {
            let e = self.entries[i];
            if let CachedPipeline::Compiled(_) = e.state {
                proof {
                    assert forall|j: int| 0 <= j < kept@.len() implies kept@[j].key != e.key by {
                        let m = choose|m: int| 0 <= m < i && before[m] == kept@[j];
                        assert(m != i);
                    }
                }
                let ghost prev = kept@;
                kept.push(e);
                proof {
                    assert(kept@[kept@.len() - 1] == before[i as int]);
                    assert forall|m: int|
                        0 <= m < i + 1 && (#[trigger] before[m]).state is Compiled implies exists|j: int|
                            0 <= j < kept@.len() && kept@[j] == before[m] by {
                        if m < i {
                            let j = choose|j: int| 0 <= j < prev.len() && prev[j] == before[m];
                            assert(kept@[j] == prev[j]);
                        } else {
                            assert(kept@[prev.len() as int] == before[m]);
                        }
                    }
                }
            }
            i = i + 1;
        }
        self.entries = kept;
        proof {
            let m0 = entries_view(before);
            let k = kept@;
            assert forall|key: PipelineKey| #[trigger] has_key(k, key) == (m0.contains_key(key) && m0[key] is Compiled) by {
                if has_key(k, key) {
                    let j = choose|j: int| 0 <= j < k.len() && k[j].key == key;
                    let m = choose|m: int| 0 <= m < before.len() && before[m] == k[j];
                    lemma_entry(before, m);
                }
                if m0.contains_key(key) && m0[key] is Compiled {
                    let m = choose|m: int| 0 <= m < before.len() && before[m].key == key;
                    lemma_entry(before, m);
                    let j = choose|j: int| 0 <= j < k.len() && k[j] == before[m];
                    assert(k[j].key == key);
                }
            }
            assert forall|key: PipelineKey| has_key(k, key) implies entries_view(k)[key] == m0[key] by {
                let j = choose|j: int| 0 <= j < k.len() && k[j].key == key;
                let m = choose|m: int| 0 <= m < before.len() && before[m] == k[j];
                lemma_entry(before, m);
                lemma_entry(k, j);
            }
            assert(entries_view(k) =~= without_failures(m0));
        }
    }
}

/// Offering a second outcome for a key that already has one changes nothing:
/// the table does not grow, and the outcome kept first is what every later
/// lookup of the key sees, however many callers raced to specialize it.
pub proof fn lemma_record_idempotent<H>(
    m: Map<PipelineKey, CachedPipeline<H>>,
    key: PipelineKey,
    first: CachedPipeline<H>,
    second: CachedPipeline<H>,
)
    ensures
        recorded(recorded(m, key, first), key, second) == recorded(m, key, first),
        recorded(m, key, first).contains_key(key),
        recorded(recorded(m, key, first), key, second)[key] == recorded(m, key, first)[key],
        m.dom().finite() ==> recorded(m, key, first).dom().len() <= m.dom().len() + 1,
        m.contains_key(key) ==> recorded(m, key, first)[key] == m[key],
{
    if !m.contains_key(key) && m.dom().finite() {
        assert(recorded(m, key, first).dom() == m.dom().insert(key));
    }
}

/// Outcomes kept for two different keys never overwrite one another.
pub proof fn lemma_distinct_keys_kept_apart<H>(
    m: Map<PipelineKey, CachedPipeline<H>>,
    a: PipelineKey,
    b: PipelineKey,
    outcome_a: CachedPipeline<H>,
    outcome_b: CachedPipeline<H>,
)
    requires
        a != b,
    ensures
        recorded(recorded(m, a, outcome_a), b, outcome_b)[a] == recorded(m, a, outcome_a)[a],
        !m.contains_key(a) && !m.contains_key(b) ==> ({
            let both = recorded(recorded(m, a, outcome_a), b, outcome_b);
            both[a] == outcome_a && both[b] == outcome_b
        }),
{
}

} // verus!
