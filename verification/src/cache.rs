//! The cache of the latest reading of each site.

use vstd::prelude::*;
use crate::assoc::{
    distinct_keys,
    is_first_pair,
    keys_of_pairs,
    lemma_distinct_size,
    lemma_first_pair,
    lemma_key_absent,
    lemma_no_pairs,
    lemma_pair_pushed,
    lemma_pair_replaced,
    map_of_pairs,
};
use crate::reading::{CachedData, CachedDataView};

verus! {

/// One entry of the cache.
#[derive(Debug)]
pub struct CacheEntry {
    pub location: String,
    pub cached: CachedData,
}

/// The entries as pairs of a site's key and a cached reading.
pub open spec fn cache_pairs(entries: Seq<CacheEntry>) -> Seq<(Seq<char>, CachedDataView)> {
    entries.map_values(|e: CacheEntry| (e.location@, e.cached@))
}

/// The latest reading of each site, by the site's key.
#[derive(Debug)]
pub struct ReadingCache {
    entries: Vec<CacheEntry>,
}

impl View for ReadingCache {
    type V = Map<Seq<char>, CachedDataView>;

    closed spec fn view(&self) -> Map<Seq<char>, CachedDataView> {
        map_of_pairs(cache_pairs(self.entries@))
    }
}

impl ReadingCache {
    #[verifier::type_invariant]
    spec fn keys_are_distinct(self) -> bool {
        distinct_keys(cache_pairs(self.entries@))
    }

    /// An empty cache.
    pub fn new() -> (r: ReadingCache)
        ensures
            r@ == Map::<Seq<char>, CachedDataView>::empty(),
    {
        let r = ReadingCache { entries: Vec::new() };
        proof {
            lemma_no_pairs(cache_pairs(r.entries@));
        }
        r
    }

    fn position(&self, location: &String) -> (r: Option<usize>)
        ensures
            r matches Some(i) ==> is_first_pair(cache_pairs(self.entries@), location@, i as int),
            r is None ==> forall|j: int|
                0 <= j < self.entries@.len() ==> cache_pairs(self.entries@)[j].0 != location@,
    {
        let mut i: usize = 0;
        while i < self.entries.len()
            invariant
                i <= self.entries.len(),
                forall|j: int| 0 <= j < i ==> cache_pairs(self.entries@)[j].0 != location@,
            decreases self.entries.len() - i,
        {
            if self.entries[i].location == *location {
                return Some(i);
            }
            i = i + 1;
        }
        None
    }

    /// The cached reading of a site, if there is one.
    pub fn get(&self, location: &String) -> (r: Option<&CachedData>)
        ensures
            r is Some <==> self@.contains_key(location@),
            r matches Some(c) ==> c@ == self@[location@],
    {
        match self.position(location) {
            Some(i) => {
                proof {
                    lemma_first_pair(cache_pairs(self.entries@), location@, i as int);
                }
                Some(&self.entries[i].cached)
            },
            None => {
                proof {
                    lemma_key_absent(cache_pairs(self.entries@), location@);
                }
                None
            },
        }
    }

    /// Puts a reading in the cache, in place of the site's earlier one.
    pub fn insert(&mut self, location: String, cached: CachedData)
        ensures
            final(self)@ == old(self)@.insert(location@, cached@),
    {
        proof {
            use_type_invariant(&*self);
        }
        let found = self.position(&location);
        let ghost before = cache_pairs(self.entries@);
        let ghost pair = (location@, cached@);
        let mut entries: Vec<CacheEntry> = Vec::new();
        std::mem::swap(&mut self.entries, &mut entries);
        let entry = CacheEntry { location, cached };
        match found {
            Some(i) => {
                entries.set(i, entry);
                proof {
                    lemma_pair_replaced(before, i as int, pair);
                    assert(cache_pairs(entries@) =~= before.update(i as int, pair));
                }
            },
            None => {
                entries.push(entry);
                proof {
                    lemma_key_absent(before, pair.0);
                    lemma_pair_pushed(before, pair);
                    assert(cache_pairs(entries@) =~= before.push(pair));
                }
            },
        }
        std::mem::swap(&mut self.entries, &mut entries);
    }

    /// How many sites have a cached reading.
    pub fn len(&self) -> (r: usize)
        ensures
            r == self@.dom().len(),
    {
        proof {
            use_type_invariant(self);
            lemma_distinct_size(cache_pairs(self.entries@));
        }
        self.entries.len()
    }

    /// Drops every cached reading.
    pub fn clear(&mut self)
        ensures
            final(self)@ == Map::<Seq<char>, CachedDataView>::empty(),
    {
        let mut entries: Vec<CacheEntry> = Vec::new();
        proof {
            lemma_no_pairs(cache_pairs(entries@));
        }
        std::mem::swap(&mut self.entries, &mut entries);
    }

    /// The keys of the sites that have a cached reading, each once.
    pub fn locations(&self) -> (r: Vec<String>)
        ensures
            location_views(r@).no_duplicates(),
            forall|key: Seq<char>| location_views(r@).contains(key) <==> self@.contains_key(key),
            r@.len() == self@.dom().len(),
    {
        proof {
            use_type_invariant(self);
            lemma_distinct_size(cache_pairs(self.entries@));
        }
        let mut out: Vec<String> = Vec::new();
        let mut i: usize = 0;
        while i < self.entries.len()
            invariant
                i <= self.entries.len(),
                out@.len() == i,
                forall|j: int| 0 <= j < i ==> out@[j]@ == self.entries@[j].location@,
            decreases self.entries.len() - i,
        {
            out.push(self.entries[i].location.clone());
            i = i + 1;
        }
        assert(location_views(out@) =~= keys_of_pairs(cache_pairs(self.entries@)));
        out
    }
}

/// The keys in a list of strings, as sequences of characters.
pub open spec fn location_views(list: Seq<String>) -> Seq<Seq<char>> {
    list.map_values(|s: String| s@)
}

} // verus!
