//! The concurrent maps of the recovery manager, the isolator and the sink
//! registry: `dashmap::DashMap` keyed by
//! stream name, with their contents named as finite maps.
use vstd::prelude::*;
use dashmap::DashMap;

use crate::circuit::CircuitBreaker;
use crate::isolation::IsolatedStream;
use crate::model::RetryConfig;
use crate::recovery::RecoveryPolicy;

verus! {

#[verifier::external_type_specification]
#[verifier::external_body]
#[verifier::reject_recursive_types(K)]
#[verifier::reject_recursive_types(V)]
#[verifier::reject_recursive_types(S)]
pub struct ExDashMap<K, V, S>(DashMap<K, V, S>);

/// The entries of a policy map, keyed by the characters of the name.
pub uninterp spec fn policy_entries(m: DashMap<String, RecoveryPolicy>) -> Map<Seq<char>, RecoveryPolicy>;

/// The entries of a retry-settings map.
pub uninterp spec fn config_entries(m: DashMap<String, RetryConfig>) -> Map<Seq<char>, RetryConfig>;

/// The entries of a circuit-breaker map.
pub uninterp spec fn breaker_entries(m: DashMap<String, CircuitBreaker>) -> Map<Seq<char>, CircuitBreaker>;

/// Relies on `DashMap::new`: a map with no entries.
#[verifier::external_body]
pub(crate) fn new_policy_map() -> (fresh: DashMap<String, RecoveryPolicy>)
    ensures
        policy_entries(fresh).is_empty(),
{
    DashMap::new()
}

/// Relies on `DashMap::insert`: afterwards `key` holds `value` and every
/// other key keeps its entry.
#[verifier::external_body]
pub(crate) fn policy_map_insert(m: &mut DashMap<String, RecoveryPolicy>, key: &str, value: RecoveryPolicy)
    ensures
        policy_entries(*final(m)) == policy_entries(*old(m)).insert(key@, value),
{
    m.insert(key.to_string(), value);
}

/// Relies on `DashMap::get`: the value held under `key`, copied out.
#[verifier::external_body]
pub(crate) fn policy_map_get(m: &DashMap<String, RecoveryPolicy>, key: &str) -> (r: Option<RecoveryPolicy>)
    ensures
        r.is_some() == policy_entries(*m).contains_key(key@),
        r.is_some() ==> r.unwrap() == policy_entries(*m)[key@],
{
    m.get(key).map(|e| *e)
}

/// Relies on `DashMap::new`: a map with no entries.
#[verifier::external_body]
pub(crate) fn new_config_map() -> (fresh: DashMap<String, RetryConfig>)
    ensures
        config_entries(fresh).is_empty(),
{
    DashMap::new()
}

/// Relies on `DashMap::insert`: afterwards `key` holds `value` and every
/// other key keeps its entry.
#[verifier::external_body]
pub(crate) fn config_map_insert(m: &mut DashMap<String, RetryConfig>, key: &str, value: RetryConfig)
    ensures
        config_entries(*final(m)) == config_entries(*old(m)).insert(key@, value),
{
    m.insert(key.to_string(), value);
}

/// Relies on `DashMap::get`: the value held under `key`, copied out.
#[verifier::external_body]
pub(crate) fn config_map_get(m: &DashMap<String, RetryConfig>, key: &str) -> (r: Option<RetryConfig>)
    ensures
        r.is_some() == config_entries(*m).contains_key(key@),
        r.is_some() ==> r.unwrap() == config_entries(*m)[key@],
{
    m.get(key).map(|e| *e)
}

/// Relies on `DashMap::new`: a map with no entries.
#[verifier::external_body]
pub(crate) fn new_breaker_map() -> (fresh: DashMap<String, CircuitBreaker>)
    ensures
        breaker_entries(fresh).is_empty(),
{
    DashMap::new()
}

/// Relies on `DashMap::insert`: afterwards `key` holds `value` and every
/// other key keeps its entry.
#[verifier::external_body]
pub(crate) fn breaker_map_insert(m: &mut DashMap<String, CircuitBreaker>, key: &str, value: CircuitBreaker)
    ensures
        breaker_entries(*final(m)) == breaker_entries(*old(m)).insert(key@, value),
{
    m.insert(key.to_string(), value);
}

/// Relies on `DashMap::get`: the value held under `key`, copied out.
#[verifier::external_body]
pub(crate) fn breaker_map_get(m: &DashMap<String, CircuitBreaker>, key: &str) -> (r: Option<CircuitBreaker>)
    ensures
        r.is_some() == breaker_entries(*m).contains_key(key@),
        r.is_some() ==> r.unwrap() == breaker_entries(*m)[key@],
{
    m.get(key).map(|e| *e)
}

/// The entries of an isolation map.
pub uninterp spec fn isolation_entries(m: DashMap<String, IsolatedStream>) -> Map<Seq<char>, IsolatedStream>;

/// Relies on `DashMap::new`: a map with no entries.
#[verifier::external_body]
pub(crate) fn new_isolation_map() -> (fresh: DashMap<String, IsolatedStream>)
    ensures
        isolation_entries(fresh).is_empty(),
        isolation_entries(fresh).dom().finite(),
{
    DashMap::new()
}

/// Relies on `DashMap::insert`: afterwards `key` holds `value` and every
/// other key keeps its entry.
#[verifier::external_body]
pub(crate) fn isolation_map_insert(m: &mut DashMap<String, IsolatedStream>, key: &str, value: IsolatedStream)
    ensures
        isolation_entries(*final(m)) == isolation_entries(*old(m)).insert(key@, value),
{
    m.insert(key.to_string(), value);
}

/// Relies on `DashMap::get`: the value held under `key`, copied out.
#[verifier::external_body]
pub(crate) fn isolation_map_get(m: &DashMap<String, IsolatedStream>, key: &str) -> (r: Option<IsolatedStream>)
    ensures
        r.is_some() == isolation_entries(*m).contains_key(key@),
        r.is_some() ==> r.unwrap() == isolation_entries(*m)[key@],
{
    m.get(key).map(|e| *e)
}

/// Relies on `DashMap::remove`: the entry of `key` leaves the map and its
/// value is handed back, if there was one.
#[verifier::external_body]
pub(crate) fn isolation_map_remove(m: &mut DashMap<String, IsolatedStream>, key: &str) -> (r: Option<IsolatedStream>)
    ensures
        isolation_entries(*final(m)) == isolation_entries(*old(m)).remove(key@),
        r.is_some() == isolation_entries(*old(m)).contains_key(key@),
        r.is_some() ==> r.unwrap() == isolation_entries(*old(m))[key@],
{
    m.remove(key).map(|(_, v)| v)
}

/// Relies on `DashMap::len`: the number of entries.
#[verifier::external_body]
pub(crate) fn isolation_map_len(m: &DashMap<String, IsolatedStream>) -> (r: usize)
    ensures
        r == isolation_entries(*m).dom().len(),
{
    m.len()
}

/// The entries of a sink map: sink key to the id of its stream, both as
/// characters.
pub uninterp spec fn sink_entries(m: DashMap<String, String>) -> Map<Seq<char>, Seq<char>>;

/// Relies on `DashMap::new`: a map with no entries.
#[verifier::external_body]
pub(crate) fn new_sink_map() -> (fresh: DashMap<String, String>)
    ensures
        sink_entries(fresh).is_empty(),
{
    DashMap::new()
}

/// Relies on `DashMap::insert`: afterwards `key` holds `value` and every
/// other key keeps its entry.
#[verifier::external_body]
pub(crate) fn sink_map_insert(m: &mut DashMap<String, String>, key: &str, value: &str)
    ensures
        sink_entries(*final(m)) == sink_entries(*old(m)).insert(key@, value@),
{
    m.insert(key.to_string(), value.to_string());
}

/// Relies on `DashMap::remove`: the entry of `key` leaves the map; whether
/// there was one comes back.
#[verifier::external_body]
pub(crate) fn sink_map_remove(m: &mut DashMap<String, String>, key: &str) -> (r: bool)
    ensures
        sink_entries(*final(m)) == sink_entries(*old(m)).remove(key@),
        r == sink_entries(*old(m)).contains_key(key@),
{
    m.remove(key).is_some()
}

} // verus!
