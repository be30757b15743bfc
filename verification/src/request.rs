//! The snapshot of a request that is handed to application code.
//!
//! A request can be read once: its body is a stream. The snapshot holds what
//! the request held, with the body read to its end, so that it can be copied
//! and handed to every component that asks for it.

use crate::header_map::header_entries;
use crate::header_map::map_clone;
use vstd::prelude::*;

verus! {

/// `http::Version`, the protocol version of a request.
#[verifier::external_type_specification]
#[verifier::external_body]
pub struct ExVersion(http::Version);

/// `http::Method`, the method of a request.
#[verifier::external_type_specification]
#[verifier::external_body]
pub struct ExMethod(http::Method);

/// `http::Uri`, the target of a request.
#[verifier::external_type_specification]
#[verifier::external_body]
pub struct ExUri(http::Uri);

/// `Clone::clone` of `http::Method`: the copy is the same method.
pub assume_specification[ <http::Method as Clone>::clone ](method: &http::Method) -> (r:
    http::Method)
    ensures
        r == *method,
;

/// `Clone::clone` of `http::Uri`: the copy is the same target.
pub assume_specification[ <http::Uri as Clone>::clone ](uri: &http::Uri) -> (r: http::Uri)
    ensures
        r == *uri,
;

/// The parts of an incoming request, with its body read to the end.
#[derive(Debug)]
pub struct RequestParts {
    pub version: http::Version,
    pub method: http::Method,
    pub uri: http::Uri,
    pub headers: http::HeaderMap<http::HeaderValue>,
    pub body: Vec<u8>,
}

/// A request snapshot as mathematics: version, method and target as they
/// came, the headers by name, and the bytes of the body.
pub struct RequestView {
    pub version: http::Version,
    pub method: http::Method,
    pub uri: http::Uri,
    pub headers: Map<Seq<u8>, Seq<Seq<u8>>>,
    pub body: Seq<u8>,
}

impl View for RequestParts {
    type V = RequestView;

    open spec fn view(&self) -> RequestView {
        RequestView {
            version: self.version,
            method: self.method,
            uri: self.uri,
            headers: header_entries(self.headers),
            body: self.body@,
        }
    }
}

impl Clone for RequestParts {
    fn clone(&self) -> (r: RequestParts)
        ensures
            r@ == self@,
    {
        RequestParts {
            version: self.version,
            method: self.method.clone(),
            uri: self.uri.clone(),
            headers: map_clone(&self.headers),
            body: self.body.clone(),
        }
    }
}

/// The body that a snapshot holds: the bytes that were read, or nothing
/// where reading failed.
pub open spec fn snapshot_body<E>(drained: Result<Vec<u8>, E>) -> Seq<u8> {
    match drained {
        Ok(bytes) => bytes@,
        Err(_) => Seq::empty(),
    }
}

/// The snapshot of a request with the given parts whose body was read with
/// the result `drained`.
pub open spec fn snapshot_of<E>(
    version: http::Version,
    method: http::Method,
    uri: http::Uri,
    headers: http::HeaderMap<http::HeaderValue>,
    drained: Result<Vec<u8>, E>,
) -> RequestView {
    RequestView {
        version,
        method,
        uri,
        headers: header_entries(headers),
        body: snapshot_body(drained),
    }
}

/// Builds the snapshot of a request from its parts and from the result of
/// reading its body to the end. A body that could not be read counts as
/// empty: the failure is not passed on.
pub fn generate_request_parts<E>(
    version: http::Version,
    method: http::Method,
    uri: http::Uri,
    headers: http::HeaderMap<http::HeaderValue>,
    drained: Result<Vec<u8>, E>,
) -> (r: RequestParts)
    ensures
        r@ == snapshot_of(version, method, uri, headers, drained),
        r.headers == headers,
{
    let body = match drained {
        Ok(bytes) => bytes,
        Err(_) => Vec::new(),
    };
    RequestParts { version, method, uri, headers, body }
}

/// Two copies of one request give the same snapshot: where version, method
/// and target are the same, the headers hold the same values under the same
/// names and reading the bodies ended alike, the snapshots agree in every
/// part.
pub proof fn lemma_snapshot_repeatable<E>(
    version: http::Version,
    method: http::Method,
    uri: http::Uri,
    headers1: http::HeaderMap<http::HeaderValue>,
    drained1: Result<Vec<u8>, E>,
    headers2: http::HeaderMap<http::HeaderValue>,
    drained2: Result<Vec<u8>, E>,
)
    requires
        header_entries(headers1) == header_entries(headers2),
        snapshot_body(drained1) == snapshot_body(drained2),
    ensures
        snapshot_of(version, method, uri, headers1, drained1) == snapshot_of(
            version,
            method,
            uri,
            headers2,
            drained2,
        ),
{
}

} // verus!
