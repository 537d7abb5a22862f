use vstd::prelude::*;
use std::hash::BuildHasher;
use std::hash::Hash;
use ttl_cache::TtlCache;
use crate::error::outcome_view;
use crate::error::Error;
use crate::error::ErrorView;
use crate::halo_waypoint::requests::auth::GetAuthRequest;
use crate::halo_waypoint::requests::auth::GetAuthRequestView;
use crate::halo_waypoint::requests::auth::GetAuthResponse;
use crate::halo_waypoint::requests::service_record::GetServiceRecordRequest;
use crate::halo_waypoint::requests::service_record::GetServiceRecordRequestView;
use crate::halo_waypoint::requests::service_record::GetServiceRecordResponse;
use crate::halo_waypoint::requests::service_record::GetServiceRecordResponseView;

verus! {

/// `ttl_cache::TtlCache`, a map whose entries expire: used through the three
/// functions below.
#[verifier::external_type_specification]
#[verifier::external_body]
#[verifier::reject_recursive_types(K)]
#[verifier::reject_recursive_types(V)]
#[verifier::reject_recursive_types(S)]
pub struct ExTtlCache<K: Eq + Hash, V, S: BuildHasher>(TtlCache<K, V, S>);

/// What a cached outcome is filed under: the request that was made.
#[derive(PartialEq, Eq, Hash, Debug)]
pub enum CacheKey {
    Auth(GetAuthRequest),
    ServiceRecord(GetAuthResponse, GetServiceRecordRequest),
}

/// The mathematical value of a [`CacheKey`].
pub enum CacheKeyView {
    Auth(GetAuthRequestView),
    ServiceRecord(Seq<char>, GetServiceRecordRequestView),
}

impl View for CacheKey {
    type V = CacheKeyView;

    open spec fn view(&self) -> CacheKeyView {
        match self {
            CacheKey::Auth(request) => CacheKeyView::Auth(request@),
            CacheKey::ServiceRecord(session, request) => CacheKeyView::ServiceRecord(
                session@,
                request@,
            ),
        }
    }
}

/// A cached outcome: what a request came to, success or failure.
#[derive(Debug)]
pub enum CacheValue {
    Auth(Result<GetAuthResponse, Error>),
    ServiceRecord(Result<GetServiceRecordResponse, Error>),
}

/// The mathematical value of a [`CacheValue`].
pub enum CacheValueView {
    Auth(Result<Seq<char>, ErrorView>),
    ServiceRecord(Result<GetServiceRecordResponseView, ErrorView>),
}

impl View for CacheValue {
    type V = CacheValueView;

    open spec fn view(&self) -> CacheValueView {
        match self {
            CacheValue::Auth(outcome) => CacheValueView::Auth(outcome_view(*outcome)),
            CacheValue::ServiceRecord(outcome) => CacheValueView::ServiceRecord(
                outcome_view(*outcome),
            ),
        }
    }
}

/// A cache of outcomes, each filed under its request.
pub type OutcomeCache = TtlCache<CacheKey, CacheValue>;

/// The entries that `cache` holds, whether they have expired or not.
pub uninterp spec fn cache_entries(cache: OutcomeCache) -> Map<
    CacheKeyView,
    CacheValueView,
>;

/// No entries at all.
pub open spec fn no_entries() -> Map<CacheKeyView, CacheValueView> {
    Map::empty()
}

/// The number of entries that `cache` was made to hold at most.
pub uninterp spec fn cache_capacity(cache: OutcomeCache) -> nat;

/// The longest time to live the library hands to the cache, in seconds: a year.
pub const MAX_TTL_SECS: u64 = 31_536_000;

/// Calls `ttl_cache::TtlCache::new`: the cache starts empty, with the capacity
/// that was asked for.
#[verifier::external_body]
pub(crate) fn cache_new(capacity: usize) -> (made: OutcomeCache)
    ensures
        cache_entries(made) == no_entries(),
        cache_capacity(made) == capacity,
{
    TtlCache::new(capacity)
}

/// Calls `ttl_cache::TtlCache::get`. It hands back a value only where the cache
/// holds an entry for the key, and then the value of that entry; it hands back
/// nothing where there is no entry or the entry has expired, which depends on the
/// clock. Keys are compared by the equality that is derived for them, which holds
/// of two keys exactly where their mathematical values are the same.
#[verifier::external_body]
pub(crate) fn cache_get<'a>(cache: &'a OutcomeCache, key: &CacheKey) -> (found:
    Option<&'a CacheValue>)
    ensures
        found matches Some(value) ==> cache_entries(*cache).contains_key(key@) && cache_entries(
            *cache,
        )[key@] == value@,
{
    cache.get(key)
}

/// Calls `ttl_cache::TtlCache::insert` with a time to live of `ttl_secs` seconds.
/// Afterwards the cache holds nothing that it did not hold before, but for the
/// new entry; the oldest entry may have left to make room. A cache with room for
/// at least one entry holds the new entry. The time to live is bounded since the
/// cache adds it to the clock's reading, which panics where the sum cannot be
/// represented.
#[verifier::external_body]
pub(crate) fn cache_insert(
    cache: &mut OutcomeCache,
    key: CacheKey,
    value: CacheValue,
    ttl_secs: u64,
)
    requires
        ttl_secs <= MAX_TTL_SECS,
    ensures
        cache_capacity(*final(cache)) == cache_capacity(*old(cache)),
        forall|k: CacheKeyView| #[trigger]
            cache_entries(*final(cache)).contains_key(k) ==> {
                ||| k == key@ && cache_entries(*final(cache))[k] == value@
                ||| k != key@ && cache_entries(*old(cache)).contains_key(k) && cache_entries(
                    *final(cache),
                )[k] == cache_entries(*old(cache))[k]
            },
        cache_capacity(*old(cache)) >= 1 ==> cache_entries(*final(cache)).contains_key(key@),
{
    cache.insert(key, value, std::time::Duration::from_secs(ttl_secs));
}

} // verus!
