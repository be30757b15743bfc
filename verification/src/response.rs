//! What application code may change of a response before it is sent: the
//! status, and the headers.

use crate::header::is_header_value;
use crate::header::location;
use crate::header::location_name;
use crate::header::FieldName;
use crate::header::FieldValue;
use crate::header_map::appended;
use crate::header_map::has_room;
use crate::header_map::header_entries;
use crate::header_map::inserted;
use crate::header_map::map_append;
use crate::header_map::map_clone;
use crate::header_map::map_insert;
use crate::header_map::map_keys_len;
use crate::header_map::map_new;
use crate::header_map::no_entries;
use crate::header_map::values_of;
use crate::header_map::MAX_HEADER_NAMES;
use crate::status::StatusCode;
use vstd::prelude::*;
use vstd::string::StringSliceAdditionalSpecFns;

verus! {

/// A status override and the headers to send, as mathematics: the number of
/// the status if one was set, and for each header name its values, oldest
/// first.
pub struct PartsView {
    pub status: Option<int>,
    pub headers: Map<Seq<u8>, Seq<Seq<u8>>>,
}

impl PartsView {
    /// No status override and no headers.
    pub open spec fn empty() -> PartsView {
        PartsView { status: None, headers: no_entries() }
    }

    /// These parts with the status override `status`.
    pub open spec fn set_status(self, status: int) -> PartsView {
        PartsView { status: Some(status), headers: self.headers }
    }

    /// These parts with `value` as the only value of header `name`.
    pub open spec fn insert_header(self, name: Seq<u8>, value: Seq<u8>) -> PartsView {
        PartsView { status: self.status, headers: inserted(self.headers, name, value) }
    }

    /// These parts with `value` added behind the values of header `name`.
    pub open spec fn append_header(self, name: Seq<u8>, value: Seq<u8>) -> PartsView {
        PartsView { status: self.status, headers: appended(self.headers, name, value) }
    }

    /// The values of header `name`, oldest first.
    pub open spec fn values(self, name: Seq<u8>) -> Seq<Seq<u8>> {
        values_of(self.headers, name)
    }
}

/// The status override and the headers that a component or a server function
/// sets for the response. By default there is no override and no header.
#[derive(Debug)]
pub struct ResponseParts {
    pub status: Option<StatusCode>,
    pub headers: http::HeaderMap<http::HeaderValue>,
}

impl View for ResponseParts {
    type V = PartsView;

    open spec fn view(&self) -> PartsView {
        PartsView { status: status_number(self.status), headers: header_entries(self.headers) }
    }
}

/// The number of a status override, if there is one.
pub open spec fn status_number(status: Option<StatusCode>) -> Option<int> {
    match status {
        Some(s) => Some(s@),
        None => None,
    }
}

impl Default for ResponseParts {
    fn default() -> (r: ResponseParts)
        ensures
            r@ == PartsView::empty(),
    {
        ResponseParts { status: None, headers: map_new() }
    }
}

impl Clone for ResponseParts {
    fn clone(&self) -> (r: ResponseParts)
        ensures
            r@ == self@,
    {
        ResponseParts { status: self.status, headers: map_clone(&self.headers) }
    }
}

impl ResponseParts {
    /// Whether `extra` further header names fit. The header map takes no
    /// more than `MAX_HEADER_NAMES` names without fail.
    pub open spec fn has_room(&self, extra: nat) -> bool {
        has_room(self.headers, extra)
    }

    /// Whether `extra` further header names fit.
    pub fn room_for(&self, extra: usize) -> (r: bool)
        ensures
            r == self.has_room(extra as nat),
    {
        let n = map_keys_len(&self.headers);
        n <= MAX_HEADER_NAMES && extra <= MAX_HEADER_NAMES - n
    }

    /// Insert a header, overwriting any previous value with the same key.
    pub fn insert_header(&mut self, key: FieldName, value: FieldValue)
        requires
            old(self).has_room(1),
        ensures
            final(self)@ == old(self)@.insert_header(key@, value@),
    {
        map_insert(&mut self.headers, key.as_bytes(), value.as_bytes());
    }

    /// Append a header, leaving any header with the same key intact.
    pub fn append_header(&mut self, key: FieldName, value: FieldValue)
        requires
            old(self).has_room(1),
        ensures
            final(self)@ == old(self)@.append_header(key@, value@),
    {
        map_append(&mut self.headers, key.as_bytes(), value.as_bytes());
    }

    /// Insert a header if there is room for one more name, and say whether
    /// there was. Without room nothing changes.
    pub fn try_insert_header(&mut self, key: FieldName, value: FieldValue) -> (r: bool)
        ensures
            r == old(self).has_room(1),
            r ==> final(self)@ == old(self)@.insert_header(key@, value@),
            !r ==> *final(self) == *old(self),
    {
        if self.room_for(1) {
            self.insert_header(key, value);
            true
        } else {
            false
        }
    }

    /// Append a header if there is room for one more name, and say whether
    /// there was. Without room nothing changes.
    pub fn try_append_header(&mut self, key: FieldName, value: FieldValue) -> (r: bool)
        ensures
            r == old(self).has_room(1),
            r ==> final(self)@ == old(self)@.append_header(key@, value@),
            !r ==> *final(self) == *old(self),
    {
        if self.room_for(1) {
            self.append_header(key, value);
            true
        } else {
            false
        }
    }
}

/// The place where everything that takes part in answering one request
/// leaves its changes to the response. The caller guards it with a lock and
/// shares it; each operation below is one turn under that lock.
#[derive(Debug)]
pub struct ResponseOptions(pub ResponseParts);

impl View for ResponseOptions {
    type V = PartsView;

    open spec fn view(&self) -> PartsView {
        self.0@
    }
}

impl Default for ResponseOptions {
    fn default() -> (r: ResponseOptions)
        ensures
            r@ == PartsView::empty(),
    {
        ResponseOptions(ResponseParts::default())
    }
}

impl ResponseOptions {
    /// Replace the whole contents with `parts`.
    pub fn overwrite(&mut self, parts: ResponseParts)
        ensures
            final(self).0 == parts,
    {
        self.0 = parts;
    }

    /// Set the status of the returned response.
    pub fn set_status(&mut self, status: StatusCode)
        ensures
            final(self)@ == old(self)@.set_status(status@),
            final(self).0.headers == old(self).0.headers,
    {
        self.0.status = Some(status);
    }

    /// Insert a header, overwriting any previous value with the same key.
    pub fn insert_header(&mut self, key: FieldName, value: FieldValue)
        requires
            old(self).0.has_room(1),
        ensures
            final(self)@ == old(self)@.insert_header(key@, value@),
    {
        self.0.insert_header(key, value);
    }

    /// Append a header, leaving any header with the same key intact.
    pub fn append_header(&mut self, key: FieldName, value: FieldValue)
        requires
            old(self).0.has_room(1),
        ensures
            final(self)@ == old(self)@.append_header(key@, value@),
    {
        self.0.append_header(key, value);
    }

    /// Insert a header if there is room for one more name, and say whether
    /// there was. Without room nothing changes.
    pub fn try_insert_header(&mut self, key: FieldName, value: FieldValue) -> (r: bool)
        ensures
            r == old(self).0.has_room(1),
            r ==> final(self)@ == old(self)@.insert_header(key@, value@),
            !r ==> *final(self) == *old(self),
    {
        self.0.try_insert_header(key, value)
    }

    /// Append a header if there is room for one more name, and say whether
    /// there was. Without room nothing changes.
    pub fn try_append_header(&mut self, key: FieldName, value: FieldValue) -> (r: bool)
        ensures
            r == old(self).0.has_room(1),
            r ==> final(self)@ == old(self)@.append_header(key@, value@),
            !r ==> *final(self) == *old(self),
    {
        self.0.try_append_header(key, value)
    }
}

/// Two contributors each append a header to the shared parts. Whichever of
/// them comes first, afterwards every header has the values it had before,
/// then the first contributor's value if it went under that name, then the
/// second's: neither append overwrites the other, and nothing is lost.
pub proof fn lemma_appends_both_persist(
    parts: PartsView,
    name1: Seq<u8>,
    value1: Seq<u8>,
    name2: Seq<u8>,
    value2: Seq<u8>,
)
    ensures
        forall|name: Seq<u8>| #[trigger]
            parts.append_header(name1, value1).append_header(name2, value2).values(name)
                == parts.values(name) + (if name == name1 {
                seq![value1]
            } else {
                Seq::empty()
            }) + (if name == name2 {
                seq![value2]
            } else {
                Seq::empty()
            }),
        parts.append_header(name1, value1).append_header(name2, value2).values(name1).contains(
            value1,
        ),
        parts.append_header(name1, value1).append_header(name2, value2).values(name2).contains(
            value2,
        ),
        parts.append_header(name2, value2).append_header(name1, value1).values(name1).contains(
            value1,
        ),
        parts.append_header(name2, value2).append_header(name1, value1).values(name2).contains(
            value2,
        ),
        parts.append_header(name1, value1).append_header(name2, value2).status == parts.status,
{
    let first = parts.append_header(name1, value1);
    let both = first.append_header(name2, value2);
    assert forall|name: Seq<u8>| #[trigger]
        both.values(name) == parts.values(name) + (if name == name1 {
            seq![value1]
        } else {
            Seq::empty()
        }) + (if name == name2 {
            seq![value2]
        } else {
            Seq::empty()
        }) by {
        assert(first.values(name) =~= parts.values(name) + (if name == name1 {
            seq![value1]
        } else {
            Seq::empty()
        }));
        assert(both.values(name) =~= first.values(name) + (if name == name2 {
            seq![value2]
        } else {
            Seq::empty()
        }));
    }
    let second = parts.append_header(name2, value2);
    let n1 = parts.values(name1).len() as int;
    assert(first.values(name1)[n1] == value1);
    lemma_append_keeps(first, name2, value2, name1, value1);
    let m2 = first.values(name2).len() as int;
    assert(both.values(name2)[m2] == value2);
    let k2 = parts.values(name2).len() as int;
    assert(second.values(name2)[k2] == value2);
    lemma_append_keeps(second, name1, value1, name2, value2);
    let k1 = second.values(name1).len() as int;
    assert(second.append_header(name1, value1).values(name1)[k1] == value1);
}

/// An append keeps every value that is already there.
pub proof fn lemma_append_keeps(
    parts: PartsView,
    name: Seq<u8>,
    value: Seq<u8>,
    other: Seq<u8>,
    kept: Seq<u8>,
)
    requires
        parts.values(other).contains(kept),
    ensures
        parts.append_header(name, value).values(other).contains(kept),
{
    let i = choose|i: int| 0 <= i < parts.values(other).len() && parts.values(other)[i] == kept;
    assert(parts.append_header(name, value).values(other)[i] == kept);
}

/// Of two status overrides only the later one is left, and the headers are
/// as they were.
pub proof fn lemma_last_status_wins(parts: PartsView, first: int, second: int)
    ensures
        parts.set_status(first).set_status(second).status == Some(second),
        parts.set_status(first).set_status(second) == parts.set_status(second),
{
}

/// Redirects the client from within a server function: sets the status 302
/// and a `Location` header with `path` as its only value.
pub fn redirect(response_options: &mut ResponseOptions, path: &str)
    requires
        is_header_value(path.spec_bytes()),
        old(response_options).0.has_room(1),
    ensures
        final(response_options)@ == old(response_options)@.set_status(302).insert_header(
            location_name(),
            path.spec_bytes(),
        ),
{
    response_options.set_status(StatusCode::found());
    let value = match FieldValue::from_str(path) {
        Ok(value) => value,
        Err(_) => vstd::pervasive::unreached(),
    };
    response_options.insert_header(location(), value);
}

} // verus!
