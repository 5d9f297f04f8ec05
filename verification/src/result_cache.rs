//! Keys and statistics of the cache of bootstrapped curves.
use vstd::prelude::*;
use crate::rate_index::RateIndex;

verus! {

/// What identifies a curve construction: the index, and digests of the
/// input rates and of the configuration.
#[derive(Debug, Clone, Copy, PartialEq, Eq, Hash, Structural)]
pub struct CurveKey {
    index: RateIndex,
    rates_hash: u64,
    config_hash: u64,
}

impl CurveKey {
    /// The rate index of the key.
    pub closed spec fn index_spec(&self) -> RateIndex {
        self.index
    }

    /// The digest of the input rates.
    pub closed spec fn rates_hash_spec(&self) -> u64 {
        self.rates_hash
    }

    /// The digest of the configuration.
    pub closed spec fn config_hash_spec(&self) -> u64 {
        self.config_hash
    }

    /// A key from its three parts.
    pub fn new(index: RateIndex, rates_hash: u64, config_hash: u64) -> (r: Self)
        ensures
            r.index_spec() == index,
            r.rates_hash_spec() == rates_hash,
            r.config_hash_spec() == config_hash,
    {
        CurveKey { index, rates_hash, config_hash }
    }

    /// The rate index.
    pub fn index(&self) -> (r: RateIndex)
        ensures
            r == self.index_spec(),
    {
        self.index
    }

    /// The digest of the input rates.
    pub fn rates_hash(&self) -> (r: u64)
        ensures
            r == self.rates_hash_spec(),
    {
        self.rates_hash
    }

    /// The digest of the configuration.
    pub fn config_hash(&self) -> (r: u64)
        ensures
            r == self.config_hash_spec(),
    {
        self.config_hash
    }
}

/// Cache hits, misses and the number of cached entries.
#[derive(Debug, Clone, Copy, PartialEq, Eq, Structural)]
pub struct CacheStats {
    /// Number of cache hits.
    pub hits: u64,
    /// Number of cache misses.
    pub misses: u64,
    /// Current number of cached entries.
    pub entries: usize,
}

impl Default for CacheStats {
    fn default() -> (r: Self)
        ensures
            r.hits == 0,
            r.misses == 0,
            r.entries == 0,
    {
        CacheStats { hits: 0, misses: 0, entries: 0 }
    }
}

impl CacheStats {
    /// Statistics from their three counts.
    pub fn new(hits: u64, misses: u64, entries: usize) -> (r: Self)
        ensures
            r.hits == hits,
            r.misses == misses,
            r.entries == entries,
    {
        CacheStats { hits, misses, entries }
    }

    /// Counts one lookup: a hit when the curve was found, a miss otherwise.
    pub fn record_lookup(&mut self, hit: bool)
        requires
            hit ==> old(self).hits < u64::MAX,
            !hit ==> old(self).misses < u64::MAX,
        ensures
            final(self).hits == old(self).hits + if hit { 1int } else { 0int },
            final(self).misses == old(self).misses + if hit { 0int } else { 1int },
            final(self).entries == old(self).entries,
    {
        if hit {
            self.hits = self.hits + 1;
        } else {
            self.misses = self.misses + 1;
        }
    }

    /// The number of lookups: hits plus misses.
    pub fn total_lookups(&self) -> (r: u64)
        requires
            self.hits + self.misses <= u64::MAX,
        ensures
            r == self.hits + self.misses,
    {
        self.hits + self.misses
    }
}

} // verus!
