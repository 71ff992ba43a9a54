//! The configuration of the tiered cache.
use vstd::prelude::*;
use std::time::Duration;

verus! {

/// A tier of the cache hierarchy.
#[derive(Clone, Copy, Debug, PartialEq, Eq, Structural)]
pub enum CacheLayer {
    /// Main memory.
    Memory,
    /// Local solid-state storage.
    NVMe,
    /// A remote cache reached over the network.
    Network,
}

/// How long cached entries live.
#[derive(Clone, Copy, Debug)]
pub enum TTLStrategy {
    /// Lifetimes adapted to how entries are used.
    Adaptive,
    /// One fixed lifetime for every entry.
    Fixed(Duration),
    /// Least-recently-used eviction, without lifetimes.
    LRU,
}

impl Default for TTLStrategy {
    /// Least-recently-used eviction.
    fn default() -> (t: Self)
        ensures
            t is LRU,
    {
        TTLStrategy::LRU
    }
}

/// The cache's settings.
#[derive(Debug)]
pub struct CacheConfig {
    pub hierarchy: Vec<CacheLayer>,
    pub ml_prefetching: bool,
    pub compression: bool,
    pub ttl_strategy: TTLStrategy,
    pub max_memory_usage: u64,
}

impl Default for CacheConfig {
    /// Memory over NVMe, prefetching and compression on, adaptive lifetimes, 1 GiB of memory.
    fn default() -> (c: Self)
        ensures
            c.hierarchy@ == seq![CacheLayer::Memory, CacheLayer::NVMe],
            c.ml_prefetching,
            c.compression,
            c.ttl_strategy is Adaptive,
            c.max_memory_usage == 1024 * 1024 * 1024,
    {
        let hierarchy = vec![CacheLayer::Memory, CacheLayer::NVMe];
        assert(hierarchy@ =~= seq![CacheLayer::Memory, CacheLayer::NVMe]);
        CacheConfig {
            hierarchy,
            ml_prefetching: true,
            compression: true,
            ttl_strategy: TTLStrategy::Adaptive,
            max_memory_usage: 1024 * 1024 * 1024,
        }
    }
}

impl CacheConfig {
    /// Whether two configurations hold the same settings.
    pub open spec fn same_settings(&self, other: &CacheConfig) -> bool {
        &&& self.hierarchy@ == other.hierarchy@
        &&& self.ml_prefetching == other.ml_prefetching
        &&& self.compression == other.compression
        &&& self.ttl_strategy == other.ttl_strategy
        &&& self.max_memory_usage == other.max_memory_usage
    }

    /// A copy of these settings.
    pub fn duplicate(&self) -> (c: CacheConfig)
        ensures
            c.same_settings(self),
    {
        let mut hierarchy: Vec<CacheLayer> = Vec::new();
        let mut i: usize = 0;
        while i < self.hierarchy.len()
            invariant
                i <= self.hierarchy@.len(),
                hierarchy@ == self.hierarchy@.take(i as int),
            decreases self.hierarchy@.len() - i,
        {
            hierarchy.push(self.hierarchy[i]);
            i = i + 1;
            assert(hierarchy@ =~= self.hierarchy@.take(i as int));
        }
        assert(self.hierarchy@.take(self.hierarchy@.len() as int) =~= self.hierarchy@);
        CacheConfig {
            hierarchy,
            ml_prefetching: self.ml_prefetching,
            compression: self.compression,
            ttl_strategy: self.ttl_strategy,
            max_memory_usage: self.max_memory_usage,
        }
    }
}

/// The speed rank of a tier: 0 for the fastest.
pub open spec fn layer_rank(l: CacheLayer) -> nat {
    match l {
        CacheLayer::Memory => 0,
        CacheLayer::NVMe => 1,
        CacheLayer::Network => 2,
    }
}

/// Whether tiers run from fastest to slowest: no tier is slower than one after it.
pub open spec fn ordered_fastest_first(h: Seq<CacheLayer>) -> bool {
    forall|i: int, j: int| 0 <= i < j < h.len() ==> layer_rank(h[i]) <= layer_rank(h[j])
}

/// Why the cache refuses its settings.
#[derive(Debug, PartialEq, Eq, Structural)]
pub enum CacheError {
    /// The tiers are not ordered from fastest to slowest.
    InvalidHierarchy,
}

fn rank(l: CacheLayer) -> (r: u8)
    ensures
        r as nat == layer_rank(l),
{
    match l {
        CacheLayer::Memory => 0,
        CacheLayer::NVMe => 1,
        CacheLayer::Network => 2,
    }
}

/// The tiered cache, running with fixed settings.
#[derive(Debug)]
pub struct IntelligentCacheSystem {
    config: CacheConfig,
}

impl IntelligentCacheSystem {
    /// The settings the cache runs with.
    pub closed spec fn settings(&self) -> CacheConfig {
        self.config
    }

    /// A cache with a copy of the given settings; refused when the tiers are not
    /// ordered from fastest to slowest.
    pub fn new(config: &CacheConfig) -> (r: Result<Self, CacheError>)
        ensures
            r is Err <==> !ordered_fastest_first(config.hierarchy@),
            r matches Err(e) ==> e == CacheError::InvalidHierarchy,
            r matches Ok(s) ==> s.settings().same_settings(config),
    {
        let h = &config.hierarchy;
        if h.len() == 0 {
            return Ok(IntelligentCacheSystem { config: config.duplicate() });
        }
        let mut i: usize = 1;
        while i < h.len()
            invariant
                1 <= i <= h@.len(),
                h@ == config.hierarchy@,
                forall|a: int, b: int|
                    0 <= a < b < i ==> layer_rank(#[trigger] h@[a]) <= layer_rank(#[trigger] h@[b]),
            decreases h@.len() - i,
        {
            if rank(h[i - 1]) > rank(h[i]) {
                proof {
                    let a = (i - 1) as int;
                    let b = i as int;
                    assert(layer_rank(config.hierarchy@[a]) > layer_rank(config.hierarchy@[b]));
                    assert(!ordered_fastest_first(config.hierarchy@));
                }
                return Err(CacheError::InvalidHierarchy);
            }
            i = i + 1;
        }
        assert(ordered_fastest_first(h@));
        Ok(IntelligentCacheSystem { config: config.duplicate() })
    }

    /// The number of tiers.
    pub fn layer_count(&self) -> (n: usize)
        ensures
            n == self.settings().hierarchy@.len(),
    {
        self.config.hierarchy.len()
    }

    /// The memory budget in whole mebibytes, as the cache reports it when it starts.
    pub fn max_memory_megabytes(&self) -> (mb: u64)
        ensures
            mb == self.settings().max_memory_usage / 1048576u64,
    {
        self.config.max_memory_usage / (1024 * 1024)
    }
}

} // verus!
