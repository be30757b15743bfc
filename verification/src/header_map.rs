//! The header multimap of the `http` crate, as this library sees it.
//!
//! The map itself is not verified. What this library relies on is written
//! down here, one contract for each method that it calls, over a single
//! model of what a map holds: for every name, the values stored under it,
//! oldest first.

use crate::header::is_header_name;
use crate::header::is_header_value;
use vstd::prelude::*;

verus! {

/// `http::HeaderMap`, a multimap from header names to values.
#[verifier::external_type_specification]
#[verifier::external_body]
#[verifier::reject_recursive_types(T)]
pub struct ExHeaderMap<T>(http::HeaderMap<T>);

/// `http::HeaderValue`, the value type of the maps used here.
#[verifier::external_type_specification]
#[verifier::external_body]
pub struct ExHeaderValue(http::HeaderValue);

/// What a header map holds: each name that occurs in it, in lower case, with
/// the bytes of the values stored under that name in the order in which they
/// were added.
pub uninterp spec fn header_entries(map: http::HeaderMap<http::HeaderValue>) -> Map<
    Seq<u8>,
    Seq<Seq<u8>>,
>;

/// The number of distinct names below which no header map refuses a
/// further name. The table of a map is capped at 32768 slots. A map that
/// has met many colliding names and holds a fifth of that, 6554 names, may
/// refuse the next one; a map that holds fewer never does.
pub const MAX_HEADER_NAMES: usize = 6554;

/// What an empty header map holds.
pub open spec fn no_entries() -> Map<Seq<u8>, Seq<Seq<u8>>> {
    Map::empty()
}

/// The values stored under `name`, oldest first; none if the name is absent.
pub open spec fn values_of(entries: Map<Seq<u8>, Seq<Seq<u8>>>, name: Seq<u8>) -> Seq<Seq<u8>> {
    if entries.dom().contains(name) {
        entries[name]
    } else {
        Seq::empty()
    }
}

/// The entries after `value` has replaced whatever stood under `name`.
pub open spec fn inserted(entries: Map<Seq<u8>, Seq<Seq<u8>>>, name: Seq<u8>, value: Seq<u8>) -> Map<
    Seq<u8>,
    Seq<Seq<u8>>,
> {
    entries.insert(name, seq![value])
}

/// The entries after `value` has been added behind the values under `name`.
pub open spec fn appended(entries: Map<Seq<u8>, Seq<Seq<u8>>>, name: Seq<u8>, value: Seq<u8>) -> Map<
    Seq<u8>,
    Seq<Seq<u8>>,
> {
    entries.insert(name, values_of(entries, name).push(value))
}

/// Whether `map` holds exactly `n` distinct names.
pub open spec fn is_name_count(map: http::HeaderMap<http::HeaderValue>, n: nat) -> bool {
    &&& header_entries(map).dom().finite()
    &&& header_entries(map).dom().len() == n
}

/// Whether `extra` further names fit into `map`.
pub open spec fn has_room(map: http::HeaderMap<http::HeaderValue>, extra: nat) -> bool {
    &&& header_entries(map).dom().finite()
    &&& header_entries(map).dom().len() + extra <= MAX_HEADER_NAMES
}

/// Calls `http::HeaderMap::new`: the new map holds nothing.
#[verifier::external_body]
pub(crate) fn map_new() -> (r: http::HeaderMap<http::HeaderValue>)
    ensures
        header_entries(r) == no_entries(),
{
    http::HeaderMap::new()
}

/// Calls `Clone::clone` of `http::HeaderMap`: the copy holds what the map
/// holds.
#[verifier::external_body]
pub(crate) fn map_clone(map: &http::HeaderMap<http::HeaderValue>) -> (r: http::HeaderMap<
    http::HeaderValue,
>)
    ensures
        header_entries(r) == header_entries(*map),
{
    map.clone()
}

/// Calls `http::HeaderMap::keys_len`: the number of distinct names, which is
/// finite.
#[verifier::external_body]
pub(crate) fn map_keys_len(map: &http::HeaderMap<http::HeaderValue>) -> (r: usize)
    ensures
        is_name_count(*map, r as nat),
{
    map.keys_len()
}

/// Calls `http::HeaderMap::get`: the first value stored under `name`, if
/// the name occurs. A name that occurs has at least one value, and every
/// stored value is a header value.
#[verifier::external_body]
pub(crate) fn map_get(map: &http::HeaderMap<http::HeaderValue>, name: &[u8]) -> (r: Option<
    Vec<u8>,
>)
    requires
        is_header_name(name@),
    ensures
        r is Some <==> header_entries(*map).dom().contains(name@),
        r matches Some(v) ==> {
            &&& header_entries(*map)[name@].len() > 0
            &&& v@ == header_entries(*map)[name@][0]
            &&& is_header_value(v@)
        },
{
    let key = http::HeaderName::from_bytes(name).unwrap();
    map.get(key).map(|v| v.as_bytes().to_vec())
}

/// Calls `http::HeaderMap::insert`: afterwards `value` is the only value
/// under `name`, and every other name keeps its values. The map panics when
/// it cannot grow, which `has_room` rules out.
#[verifier::external_body]
pub(crate) fn map_insert(
    map: &mut http::HeaderMap<http::HeaderValue>,
    name: &[u8],
    value: &[u8],
)
    requires
        is_header_name(name@),
        is_header_value(value@),
        has_room(*old(map), 1),
    ensures
        header_entries(*final(map)) == inserted(header_entries(*old(map)), name@, value@),
{
    let key = http::HeaderName::from_bytes(name).unwrap();
    let val = http::HeaderValue::from_bytes(value).unwrap();
    map.insert(key, val);
}

/// Calls `http::HeaderMap::append`: afterwards `value` is the last value
/// under `name`, behind those that were there, and every other name keeps
/// its values. The map panics when it cannot grow, which `has_room` rules
/// out.
#[verifier::external_body]
pub(crate) fn map_append(
    map: &mut http::HeaderMap<http::HeaderValue>,
    name: &[u8],
    value: &[u8],
)
    requires
        is_header_name(name@),
        is_header_value(value@),
        has_room(*old(map), 1),
    ensures
        header_entries(*final(map)) == appended(header_entries(*old(map)), name@, value@),
{
    let key = http::HeaderName::from_bytes(name).unwrap();
    let val = http::HeaderValue::from_bytes(value).unwrap();
    map.append(key, val);
}

} // verus!
