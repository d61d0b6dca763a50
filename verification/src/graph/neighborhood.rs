//! Caching of node neighbourhoods: when a cached neighbourhood is still
//! fresh, and the key it is cached under.

use vstd::prelude::*;
use crate::text::{int_text, concat3, int_to_string};
use crate::time::{DateTimeUtc, MIN_UTC, MAX_UTC, NANOS_PER_SECOND, spec_unix_seconds, unix_seconds};
use crate::types::{uuid_text, uuid_to_string};

verus! {

/// Configuration of neighbourhood operations.
#[derive(Debug, Clone, Copy)]
pub struct NeighborhoodConfig {
    /// Maximum cache size.
    pub max_cache_size: usize,
    /// Cache eviction threshold (access count).
    pub cache_eviction_threshold: u64,
    /// Cache entry time-to-live in seconds.
    pub cache_ttl_seconds: i64,
    /// Feature vector dimension.
    pub feature_dim: usize,
}

impl Default for NeighborhoodConfig {
    /// Ten thousand entries, eviction after five accesses, an hour to live,
    /// 128 features.
    fn default() -> (c: NeighborhoodConfig)
        ensures
            c.max_cache_size == 10000,
            c.cache_eviction_threshold == 5,
            c.cache_ttl_seconds == 3600,
            c.feature_dim == 128,
    {
        NeighborhoodConfig {
            max_cache_size: 10000,
            cache_eviction_threshold: 5,
            cache_ttl_seconds: 3600,
            feature_dim: 128,
        }
    }
}

/// Whole seconds in a span of nanoseconds, rounded toward zero.
pub open spec fn whole_seconds(d: int) -> int {
    if d >= 0 {
        d / (NANOS_PER_SECOND as int)
    } else {
        -((-d) / (NANOS_PER_SECOND as int))
    }
}

/// Whether an entry last accessed at `last_access` is still fresh at
/// `current_time`: its age in whole seconds is at most the time-to-live.
pub open spec fn cache_fresh(ttl_seconds: i64, last_access: DateTimeUtc, current_time: DateTimeUtc) -> bool {
    whole_seconds(current_time - last_access) <= ttl_seconds
}

impl NeighborhoodConfig {
    /// Whether an entry last accessed at `last_access` is still fresh at
    /// `current_time`.
    pub fn is_cache_valid(&self, last_access: DateTimeUtc, current_time: DateTimeUtc) -> (b: bool)
        requires
            MIN_UTC <= last_access <= MAX_UTC,
            MIN_UTC <= current_time <= MAX_UTC,
        ensures
            b == cache_fresh(self.cache_ttl_seconds, last_access, current_time),
    {
        let d = current_time - last_access;
        let age: i128 = if d >= 0 {
            d / NANOS_PER_SECOND
        } else {
            -((-d) / NANOS_PER_SECOND)
        };
        age <= self.cache_ttl_seconds as i128
    }

    /// A lookup of a cached entry accessed `access_count` times, last at
    /// `last_access`, made for instant `timestamp`: a hit while the entry is
    /// fresh, giving its new access count and last access (the lookup's
    /// instant); `None` (a miss, to be computed afresh) once it is stale.
    pub fn lookup(&self, access_count: u64, last_access: DateTimeUtc, timestamp: DateTimeUtc) -> (r: Option<
        (u64, DateTimeUtc),
    >)
        requires
            MIN_UTC <= last_access <= MAX_UTC,
            MIN_UTC <= timestamp <= MAX_UTC,
            access_count < u64::MAX,
        ensures
            cache_fresh(self.cache_ttl_seconds, last_access, timestamp) ==> r == Some(
                ((access_count + 1) as u64, timestamp),
            ),
            !cache_fresh(self.cache_ttl_seconds, last_access, timestamp) ==> r is None,
    {
        if self.is_cache_valid(last_access, timestamp) {
            Some((access_count + 1, timestamp))
        } else {
            None
        }
    }

    /// Whether the cache, holding `cache_len` entries, must first drop its
    /// stale entries before taking a new one: when it is full.
    pub fn must_evict(&self, cache_len: usize) -> (b: bool)
        ensures
            b == (cache_len >= self.max_cache_size),
    {
        cache_len >= self.max_cache_size
    }
}

/// The key a neighbourhood is cached under: its centre, an underscore, and
/// its instant in whole seconds.
pub open spec fn cache_key_text(node_id: u128, timestamp: DateTimeUtc) -> Seq<char> {
    uuid_text(node_id) + "_"@ + int_text(spec_unix_seconds(timestamp as int))
}

/// The key a neighbourhood is cached under.
pub fn cache_key(node_id: u128, timestamp: DateTimeUtc) -> (k: String)
    ensures
        k@ == cache_key_text(node_id, timestamp),
{
    let id = uuid_to_string(node_id);
    let secs = int_to_string(unix_seconds(timestamp));
    concat3(id.as_str(), "_", secs.as_str())
}

} // verus!
