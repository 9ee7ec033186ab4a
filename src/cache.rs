//! The beatmap cache: chart texts by beatmap id, filled when a lookup misses
//! and never emptied.

use vstd::prelude::*;

use std::collections::HashMap;

use crate::error::PipelineError;

verus! {

broadcast use vstd::std_specs::hash::group_hash_axioms;

/// Chart texts by beatmap id. A chart, once published, never changes: the
/// first text kept for an id stays, and no entry is dropped.
pub struct BeatmapCache {
    charts: HashMap<u32, String>,
}

impl View for BeatmapCache {
    type V = Map<u32, Seq<char>>;

    closed spec fn view(&self) -> Map<u32, Seq<char>> {
        Map::new(|k: u32| self.charts@.contains_key(k), |k: u32| self.charts@[k]@)
    }
}

/// The cache after keeping `text` for `id`: an entry that is there already stays.
pub open spec fn after_store(m: Map<u32, Seq<char>>, id: u32, text: Seq<char>) -> Map<u32, Seq<char>> {
    if m.contains_key(id) {
        m
    } else {
        m.insert(id, text)
    }
}

/// The cache after a fetch for `id` came back: the chart is kept where the
/// fetch succeeded, and nothing changes where it failed.
pub open spec fn after_fetch(m: Map<u32, Seq<char>>, id: u32, fetched: Option<Seq<char>>) -> Map<
    u32,
    Seq<char>,
> {
    match fetched {
        Some(t) => after_store(m, id, t),
        None => m,
    }
}

/// Whether a lookup of `id` has to go to the network.
pub open spec fn needs_fetch(m: Map<u32, Seq<char>>, id: u32) -> bool {
    !m.contains_key(id)
}

impl BeatmapCache {
    /// An empty cache.
    pub fn new() -> (r: BeatmapCache)
        ensures
            r@ == Map::<u32, Seq<char>>::empty(),
    {
        let r = BeatmapCache { charts: HashMap::new() };
        assert(r@ =~= Map::<u32, Seq<char>>::empty());
        r
    }

    /// The cached chart of `id`: `Some` on a hit, `None` where it has to be fetched.
    pub fn lookup(&self, id: u32) -> (r: Option<String>)
        ensures
            r.is_none() == needs_fetch(self@, id),
            r.is_some() ==> r.unwrap()@ == self@[id],
    {
        match self.charts.get(&id) {
            Some(t) => Some(t.clone()),
            None => None,
        }
    }

    /// Keeps the chart of `id`, unless one is kept already.
    pub fn store(&mut self, id: u32, text: String)
        ensures
            final(self)@ == after_store(old(self)@, id, text@),
    {
        if self.charts.contains_key(&id) {
            return;
        }
        let ghost t = text@;
        self.charts.insert(id, text);
        assert(final(self)@ =~= old(self)@.insert(id, t));
    }

    /// Takes the result of the fetch that a miss on `id` called for: a chart
    /// that came is kept (unless another request kept one first) and the kept
    /// chart is returned; a failed fetch leaves the cache as it was, so that
    /// the next lookup tries again, and is `BeatmapUnavailable`.
    pub fn complete_fetch(&mut self, id: u32, fetched: Option<String>) -> (r: Result<String, PipelineError>)
        ensures
            final(self)@ == after_fetch(
                old(self)@,
                id,
                match fetched {
                    Some(t) => Some(t@),
                    None => None,
                },
            ),
            fetched.is_none() ==> r == Err::<String, PipelineError>(PipelineError::BeatmapUnavailable),
            fetched.is_some() ==> r.is_ok() && r.unwrap()@ == final(self)@[id],
    {
        match fetched {
            Some(t) => {
                self.store(id, t);
                match self.lookup(id) {
                    Some(kept) => Ok(kept),
                    None => Err(PipelineError::BeatmapUnavailable),
                }
            },
            None => Err(PipelineError::BeatmapUnavailable),
        }
    }
}

/// Once a lookup of `id` has succeeded, from the cache or by a fetch, the next
/// lookup of `id` is a hit that returns the same chart: no second fetch.
pub proof fn lemma_no_second_fetch(m: Map<u32, Seq<char>>, id: u32, fetched: Seq<char>)
    ensures
        !needs_fetch(after_fetch(m, id, Some(fetched)), id),
        !needs_fetch(m, id) ==> after_fetch(m, id, Some(fetched)) == m,
        needs_fetch(m, id) ==> after_fetch(m, id, Some(fetched))[id] == fetched,
{
}

} // verus!
