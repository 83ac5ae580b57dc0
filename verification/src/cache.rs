//! A time-to-live cache for a price source's symbol map.

use vstd::prelude::*;

verus! {

use crate::symbol_map::SymbolMap;
use crate::{ApiError, NamedAPI, PriceAPI};

/// How long a cached symbol map stays fresh when no age is chosen: one day,
/// in milliseconds.
pub const DEFAULT_MAX_CACHE_AGE_MS: u64 = 86400000;

/// Wraps one price source and serves its symbol catalog from a cache that is
/// refreshed from the wrapped source once the cached copy is older than
/// `max_cache_age_ms` (or has never been filled). Price queries pass straight
/// through.
///
/// Exclusive access (`&mut self`) is the single point of mutual exclusion the
/// cache relies on: a read observes either the state before or after a
/// refresh, never a half-published one.
pub struct SymbolMapCacheStrategy<T> {
    api: T,
    cached_map: SymbolMap,
    last_refresh_ms: u64,
    max_cache_age_ms: u64,
}

impl<T> SymbolMapCacheStrategy<T> {
    /// The wrapped source.
    pub closed spec fn wrapped(&self) -> T {
        self.api
    }

    /// The mapping the cache currently holds.
    pub closed spec fn cached(&self) -> Map<Seq<char>, Seq<Seq<char>>> {
        self.cached_map@
    }

    /// The clock reading published by the last successful refresh.
    pub closed spec fn last_refresh(&self) -> u64 {
        self.last_refresh_ms
    }

    /// The fixed maximum age chosen at construction.
    pub closed spec fn max_age(&self) -> u64 {
        self.max_cache_age_ms
    }

    /// Whether a read at `now_ms` is served from the cache: the cached map
    /// has been filled and its age is strictly below the maximum. A clock
    /// reading older than the last refresh counts as stale, so a read then
    /// refreshes rather than serve data of unknowable age.
    pub open spec fn fresh_at(&self, now_ms: u64) -> bool {
        &&& self.cached() != Map::<Seq<char>, Seq<Seq<char>>>::empty()
        &&& self.last_refresh() <= now_ms
        &&& now_ms - self.last_refresh() < self.max_age()
    }

    /// Wrap `api` with the default maximum cache age.
    pub fn new(api: T) -> (r: Self)
        ensures
            r.wrapped() == api,
            r.cached() == Map::<Seq<char>, Seq<Seq<char>>>::empty(),
            r.max_age() == DEFAULT_MAX_CACHE_AGE_MS,
    {
        Self::with_max_age(api, DEFAULT_MAX_CACHE_AGE_MS)
    }

    /// Wrap `api`, refreshing its symbol map whenever the cached copy is
    /// `max_cache_age_ms` old or older.
    pub fn with_max_age(api: T, max_cache_age_ms: u64) -> (r: Self)
        ensures
            r.wrapped() == api,
            r.cached() == Map::<Seq<char>, Seq<Seq<char>>>::empty(),
            r.max_age() == max_cache_age_ms,
    {
        SymbolMapCacheStrategy {
            api,
            cached_map: SymbolMap::new(),
            last_refresh_ms: 0,
            max_cache_age_ms,
        }
    }
}

impl<T: PriceAPI> PriceAPI for SymbolMapCacheStrategy<T> {
    /// Serve the cached map while it is fresh; otherwise fetch from the
    /// wrapped source — never through this method itself — and publish the
    /// result before returning it. A failed refresh leaves the cache exactly
    /// as it was and surfaces the error.
    fn get_symbol_map(&mut self, now_ms: u64) -> (r: Result<SymbolMap, ApiError>)
        ensures
            old(self).fresh_at(now_ms) ==> {
                &&& *final(self) == *old(self)
                &&& r matches Ok(m) && m@ == old(self).cached()
            },
            !old(self).fresh_at(now_ms) ==> match r {
                Ok(m) => {
                    &&& final(self).cached() == m@
                    &&& final(self).last_refresh() == now_ms
                    &&& final(self).max_age() == old(self).max_age()
                },
                Err(_) => {
                    &&& final(self).cached() == old(self).cached()
                    &&& final(self).last_refresh() == old(self).last_refresh()
                    &&& final(self).max_age() == old(self).max_age()
                },
            },
    {
        if !self.cached_map.is_empty() && now_ms >= self.last_refresh_ms && now_ms
            - self.last_refresh_ms < self.max_cache_age_ms {
            return Ok(self.cached_map.clone());
        }
        match self.api.get_symbol_map(now_ms) {
            Ok(fresh) => {
                self.cached_map = fresh.clone();
                self.last_refresh_ms = now_ms;
                Ok(fresh)
            },
            Err(e) => Err(e),
        }
    }

    /// Pure pass-through to the wrapped source; the cache adds no logic here
    /// and in particular never touches the cached map.
    fn get_price(&mut self, id_list: &Vec<String>, in_currency: &str) -> (r: Result<
        Vec<(String, u64)>,
        ApiError,
    >)
        ensures
            final(self).cached() == old(self).cached(),
            final(self).last_refresh() == old(self).last_refresh(),
            final(self).max_age() == old(self).max_age(),
    {
        self.api.get_price(id_list, in_currency)
    }
}

impl<T: NamedAPI> NamedAPI for SymbolMapCacheStrategy<T> {
    /// The cache answers to the wrapped source's name.
    open spec fn spec_name(&self) -> Seq<char> {
        self.wrapped().spec_name()
    }

    fn get_name(&self) -> (r: String) {
        self.api.get_name()
    }
}

/// Cache freshness law: a successful refresh that published a non-empty map
/// at `refresh_ms` leaves the cache fresh for every read strictly within
/// `max_age` of it. By the contract of `get_symbol_map`, such a read returns
/// exactly the published map and leaves the whole cache — the wrapped source
/// included — untouched, so the source is fetched from at most once per
/// staleness episode under single-threaded access.
pub proof fn lemma_cache_freshness<T>(
    cache: SymbolMapCacheStrategy<T>,
    refresh_ms: u64,
    read_ms: u64,
)
    requires
        cache.cached() != Map::<Seq<char>, Seq<Seq<char>>>::empty(),
        cache.last_refresh() == refresh_ms,
        refresh_ms <= read_ms,
        read_ms - refresh_ms < cache.max_age(),
    ensures
        cache.fresh_at(read_ms),
{
}

/// Cache failure isolation law: a refresh that failed changes nothing, so if
/// the cache was stale when the failing read began, it is still stale for
/// every later read — expired data is never silently resurrected as fresh.
pub proof fn lemma_failed_refresh_stays_stale<T>(
    pre: SymbolMapCacheStrategy<T>,
    post: SymbolMapCacheStrategy<T>,
    fail_ms: u64,
    retry_ms: u64,
)
    requires
        !pre.fresh_at(fail_ms),
        pre.last_refresh() <= fail_ms <= retry_ms,
        post.cached() == pre.cached(),
        post.last_refresh() == pre.last_refresh(),
        post.max_age() == pre.max_age(),
    ensures
        !post.fresh_at(retry_ms),
{
}

} // verus!
