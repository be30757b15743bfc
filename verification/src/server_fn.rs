//! From the outcome of a server function call to the HTTP response.
//!
//! The caller looks the function up by its name, runs it and reports what
//! happened; what the client is told is decided here.

use crate::header::accept;
use crate::header::accept_name;
use crate::header::bytes_equal;
use crate::header::content_type;
use crate::header::content_type_name;
use crate::header::is_text;
use crate::header::is_visible_ascii;
use crate::header::lemma_ascii_text_bytes;
use crate::header::lemma_visible_ascii_is_value;
use crate::header::location;
use crate::header::location_name;
use crate::header::referer;
use crate::header::referer_name;
use crate::header_map::appended;
use crate::header_map::has_room;
use crate::header_map::header_entries;
use crate::header_map::inserted;
use crate::header_map::map_append;
use crate::header_map::map_clone;
use crate::header_map::map_get;
use crate::header_map::map_insert;
use crate::header_map::map_new;
use crate::header_map::no_entries;
use crate::header_map::values_of;
use crate::response::PartsView;
use crate::response::ResponseParts;
use crate::status::StatusCode;
use vstd::prelude::*;
use vstd::slice::slice_to_vec;
use vstd::string::StringSliceAdditionalSpecFns;
use vstd::utf8::encode_utf8;

verus! {

/// What a server function returns: its result, serialized in one of three
/// encodings.
#[derive(Debug)]
pub enum Payload {
    /// Data encoded as CBOR.
    Binary(Vec<u8>),
    /// Data encoded as in a URL.
    Url(String),
    /// Data encoded as JSON.
    Json(String),
}

/// The content type of CBOR.
pub const CBOR: &'static str = "application/cbor";

/// The content type of URL-encoded form data.
pub const URL_ENCODED: &'static str = "application/x-www-form-urlencoded";

/// The content type of JSON.
pub const JSON: &'static str = "application/json";

/// What the body of the response says before the name of a function that
/// was not found.
pub const NOT_FOUND_LEAD: &'static str = "Could not find a server function at the route ";

/// What the body of the response says after the name of a function that
/// was not found.
pub const NOT_FOUND_ADVICE: &'static str =
    ". \n\nIt's likely that you need to call ServerFn::register() on the server function type, somewhere in your `main` function.";

/// The content type of CBOR, in bytes.
pub open spec fn cbor_type() -> Seq<u8> {
    CBOR.spec_bytes()
}

/// The content type of URL-encoded form data, in bytes.
pub open spec fn url_type() -> Seq<u8> {
    URL_ENCODED.spec_bytes()
}

/// The content type of JSON, in bytes.
pub open spec fn json_type() -> Seq<u8> {
    JSON.spec_bytes()
}

impl Payload {
    /// The content type that announces this payload.
    pub open spec fn content_type(self) -> Seq<u8> {
        match self {
            Payload::Binary(_) => cbor_type(),
            Payload::Url(_) => url_type(),
            Payload::Json(_) => json_type(),
        }
    }

    /// The bytes of this payload as they go into the body.
    pub open spec fn bytes(self) -> Seq<u8> {
        match self {
            Payload::Binary(data) => data@,
            Payload::Url(data) => encode_utf8(data@),
            Payload::Json(data) => encode_utf8(data@),
        }
    }
}

/// How a call of a server function ended.
#[derive(Debug)]
pub enum ServerFnOutcome {
    /// No function is registered under the name.
    NotRegistered,
    /// The function ran and failed; this is the description of the failure.
    Failed(String),
    /// The function ran and returned a payload. The parts are what it left
    /// in the response sink.
    Returned(Payload, ResponseParts),
}

/// The response to a server function call.
#[derive(Debug)]
pub struct Response {
    pub status: StatusCode,
    pub headers: http::HeaderMap<http::HeaderValue>,
    pub body: Vec<u8>,
}

/// A response as mathematics: the number of its status, its headers by
/// name, and the bytes of its body.
pub struct ResponseView {
    pub status: int,
    pub headers: Map<Seq<u8>, Seq<Seq<u8>>>,
    pub body: Seq<u8>,
}

impl View for Response {
    type V = ResponseView;

    open spec fn view(&self) -> ResponseView {
        ResponseView {
            status: self.status@,
            headers: header_entries(self.headers),
            body: self.body@,
        }
    }
}

/// The name under which a server function is looked up: the path without
/// its leading slash, if it has one. Only one slash is taken off.
pub open spec fn server_fn_name_of(path: Seq<char>) -> Seq<char> {
    if path.len() > 0 && path[0] == '/' {
        path.subrange(1, path.len() as int)
    } else {
        path
    }
}

/// The name under which the server function at `path` is looked up.
pub fn server_fn_name(path: &str) -> (r: String)
    ensures
        r@ == server_fn_name_of(path@),
{
    if path.is_empty() {
        return path.to_owned();
    }
    if path.get_char(0) == '/' {
        let n = path.unicode_len();
        path.substring_char(1, n).to_owned()
    } else {
        path.to_owned()
    }
}

/// The start of the body that answers a call of an unknown function, in
/// bytes.
pub open spec fn not_found_lead() -> Seq<u8> {
    NOT_FOUND_LEAD.spec_bytes()
}

/// The end of the body that answers a call of an unknown function, in
/// bytes.
pub open spec fn not_found_advice() -> Seq<u8> {
    NOT_FOUND_ADVICE.spec_bytes()
}

/// The response to a call of a function that is not registered under
/// `name`: status 400, no headers, and a body that names the function.
pub open spec fn not_found_response(name: Seq<char>) -> ResponseView {
    ResponseView {
        status: 400,
        headers: no_entries(),
        body: not_found_lead() + encode_utf8(name) + not_found_advice(),
    }
}

/// The response to a call that failed with `description`: status 500, no
/// headers, and the description as the body.
pub open spec fn failure_response(description: Seq<char>) -> ResponseView {
    ResponseView { status: 500, headers: no_entries(), body: encode_utf8(description) }
}

/// The first value of header `name`, if the header is there.
pub open spec fn first_value(entries: Map<Seq<u8>, Seq<Seq<u8>>>, name: Seq<u8>) -> Option<
    Seq<u8>,
> {
    if entries.dom().contains(name) && entries[name].len() > 0 {
        Some(entries[name][0])
    } else {
        None
    }
}

/// Whether the request asks for the payload itself: its `Accept` header is
/// one of the three content types of a payload.
pub open spec fn accepts_payload(request: Map<Seq<u8>, Seq<Seq<u8>>>) -> bool {
    first_value(request, accept_name()) matches Some(accept) && (accept == json_type() || accept
        == url_type() || accept == cbor_type())
}

/// Where a form submission is sent back to: the `Referer` of the request if
/// it has one that reads as text, and `/` otherwise.
pub open spec fn redirect_target(request: Map<Seq<u8>, Seq<Seq<u8>>>) -> Seq<u8> {
    match first_value(request, referer_name()) {
        Some(referer) => if is_visible_ascii(referer) {
            referer
        } else {
            "/".spec_bytes()
        },
        None => "/".spec_bytes(),
    }
}

/// The status that the request alone asks for: 200 where it accepts the
/// payload, and the redirect 303 where it does not.
pub open spec fn negotiated_status(request: Map<Seq<u8>, Seq<Seq<u8>>>) -> int {
    if accepts_payload(request) {
        200
    } else {
        303
    }
}

/// The headers of the response to a successful call: those that the
/// function left in the sink, then `Location` where the client is sent
/// back, and one `Content-Type`, that of the payload, in the place of any
/// that the function left.
pub open spec fn success_headers(
    request: Map<Seq<u8>, Seq<Seq<u8>>>,
    payload: Payload,
    parts: PartsView,
) -> Map<Seq<u8>, Seq<Seq<u8>>> {
    let located = if accepts_payload(request) {
        parts.headers
    } else {
        appended(parts.headers, location_name(), redirect_target(request))
    };
    inserted(located, content_type_name(), payload.content_type())
}

/// The response to a successful call. A status that the function set in
/// the sink takes the place of the negotiated one.
pub open spec fn success_response(
    request: Map<Seq<u8>, Seq<Seq<u8>>>,
    payload: Payload,
    parts: PartsView,
) -> ResponseView {
    ResponseView {
        status: match parts.status {
            Some(status) => status,
            None => negotiated_status(request),
        },
        headers: success_headers(request, payload, parts),
        body: payload.bytes(),
    }
}

/// The response to a call with the given outcome.
pub open spec fn response_to(
    name: Seq<char>,
    request: Map<Seq<u8>, Seq<Seq<u8>>>,
    outcome: ServerFnOutcome,
) -> ResponseView {
    match outcome {
        ServerFnOutcome::NotRegistered => not_found_response(name),
        ServerFnOutcome::Failed(description) => failure_response(description@),
        ServerFnOutcome::Returned(payload, parts) => success_response(request, payload, parts@),
    }
}

/// Whether `part` stands somewhere in `whole`, byte for byte.
pub open spec fn holds(whole: Seq<u8>, part: Seq<u8>) -> bool {
    exists|at: int| 0 <= at && at + part.len() <= whole.len() && #[trigger] whole.subrange(
        at,
        at + part.len(),
    ) == part
}

/// A call of a function that is not registered is answered with status 400,
/// whatever the request holds, and the body names the function: it holds
/// the name under which the function was looked up.
pub proof fn lemma_unregistered_is_bad_request(
    path: Seq<char>,
    request: Map<Seq<u8>, Seq<Seq<u8>>>,
)
    ensures
        response_to(server_fn_name_of(path), request, ServerFnOutcome::NotRegistered).status
            == 400,
        holds(
            response_to(server_fn_name_of(path), request, ServerFnOutcome::NotRegistered).body,
            encode_utf8(server_fn_name_of(path)),
        ),
{
    let name = encode_utf8(server_fn_name_of(path));
    let body = not_found_lead() + name + not_found_advice();
    let at = not_found_lead().len() as int;
    assert(body.subrange(at, at + name.len()) =~= name);
}

/// The three content types of a payload differ from one another, and the
/// names of the two headers that a response may gain differ too.
pub proof fn lemma_names_differ()
    ensures
        cbor_type() != url_type(),
        cbor_type() != json_type(),
        url_type() != json_type(),
        location_name() != content_type_name(),
{
    reveal_strlit("application/cbor");
    reveal_strlit("application/x-www-form-urlencoded");
    reveal_strlit("application/json");
    reveal_strlit("location");
    reveal_strlit("content-type");
    lemma_ascii_text_bytes(CBOR);
    lemma_ascii_text_bytes(URL_ENCODED);
    lemma_ascii_text_bytes(JSON);
    lemma_ascii_text_bytes("location");
    lemma_ascii_text_bytes("content-type");
    assert(cbor_type()[12] != json_type()[12]);
}

/// Every answer to a successful call has exactly one `Content-Type`,
/// whatever the request asked for and whatever the function left in the
/// sink, and it is the one of the payload's variant.
pub proof fn lemma_content_type_matches_payload(
    request: Map<Seq<u8>, Seq<Seq<u8>>>,
    payload: Payload,
    parts: PartsView,
)
    ensures
        values_of(success_response(request, payload, parts).headers, content_type_name())
            == seq![payload.content_type()],
        payload is Binary <==> payload.content_type() == cbor_type(),
        payload is Url <==> payload.content_type() == url_type(),
        payload is Json <==> payload.content_type() == json_type(),
{
    lemma_names_differ();
}

/// A request that accepts one of the payload's content types is never
/// answered with a redirect that the function did not ask for: the status
/// is the one from the sink, or 200 where the sink holds none, and no
/// `Location` is added.
pub proof fn lemma_accepted_payload_is_not_redirected(
    request: Map<Seq<u8>, Seq<Seq<u8>>>,
    payload: Payload,
    parts: PartsView,
)
    requires
        first_value(request, accept_name()) == Some(json_type()) || first_value(
            request,
            accept_name(),
        ) == Some(url_type()) || first_value(request, accept_name()) == Some(cbor_type()),
    ensures
        parts.status is None ==> success_response(request, payload, parts).status == 200,
        parts.status != Some(303int) ==> success_response(request, payload, parts).status != 303,
        values_of(success_response(request, payload, parts).headers, location_name())
            == parts.values(location_name()),
{
    lemma_names_differ();
}

/// A request that does not accept a payload's content type is a form
/// submission: unless the function set a status, the answer is 303, and the
/// last `Location` of the response is the `Referer` of the request, or `/`
/// where the request has none that reads as text.
pub proof fn lemma_form_submission_is_redirected(
    request: Map<Seq<u8>, Seq<Seq<u8>>>,
    payload: Payload,
    parts: PartsView,
)
    requires
        !accepts_payload(request),
    ensures
        parts.status is None ==> success_response(request, payload, parts).status == 303,
        values_of(success_response(request, payload, parts).headers, location_name())
            == parts.values(location_name()).push(redirect_target(request)),
        !parts.headers.dom().contains(location_name()) ==> values_of(
            success_response(request, payload, parts).headers,
            location_name(),
        ) == seq![redirect_target(request)],
        first_value(request, referer_name()) matches Some(origin) ==> is_visible_ascii(origin)
            ==> redirect_target(request) == origin,
{
    lemma_names_differ();
    if !parts.headers.dom().contains(location_name()) {
        assert(parts.values(location_name()).push(redirect_target(request)) =~= seq![
            redirect_target(request),
        ]);
    }
}

/// A status that the function set in the sink is the status of the
/// response, whatever the request asked for.
pub proof fn lemma_sink_status_overrides(
    request: Map<Seq<u8>, Seq<Seq<u8>>>,
    payload: Payload,
    parts: PartsView,
    status: int,
)
    requires
        parts.status == Some(status),
    ensures
        success_response(request, payload, parts).status == status,
{
}

/// The response to a call of a function that is not registered under
/// `name`.
pub fn respond_not_found(name: &str) -> (r: Response)
    ensures
        r@ == not_found_response(name@),
{
    let mut body = slice_to_vec(NOT_FOUND_LEAD.as_bytes());
    let mut name_bytes = name.as_bytes_vec();
    body.append(&mut name_bytes);
    let mut advice = slice_to_vec(NOT_FOUND_ADVICE.as_bytes());
    body.append(&mut advice);
    Response { status: StatusCode::bad_request(), headers: map_new(), body }
}

/// The response to a call that failed with `description`.
pub fn respond_failure(description: &str) -> (r: Response)
    ensures
        r@ == failure_response(description@),
{
    Response {
        status: StatusCode::internal_server_error(),
        headers: map_new(),
        body: description.as_bytes_vec(),
    }
}

/// Whether the request asks for the payload itself.
pub fn wants_payload(request: &http::HeaderMap<http::HeaderValue>) -> (r: bool)
    ensures
        r == accepts_payload(header_entries(*request)),
{
    match map_get(request, accept().as_bytes()) {
        Some(value) => {
            bytes_equal(value.as_slice(), JSON.as_bytes()) || bytes_equal(
                value.as_slice(),
                URL_ENCODED.as_bytes(),
            ) || bytes_equal(value.as_slice(), CBOR.as_bytes())
        },
        None => false,
    }
}

/// Where a form submission is sent back to.
pub fn redirect_location(request: &http::HeaderMap<http::HeaderValue>) -> (r: Vec<u8>)
    ensures
        r@ == redirect_target(header_entries(*request)),
        is_visible_ascii(r@),
{
    match map_get(request, referer().as_bytes()) {
        Some(value) => {
            if is_text(value.as_slice()) {
                return value;
            }
        },
        None => {},
    }
    proof {
        reveal_strlit("/");
        lemma_ascii_text_bytes("/");
    }
    slice_to_vec("/".as_bytes())
}

/// The bytes of a payload as they go into the body.
fn payload_bytes(payload: Payload) -> (r: Vec<u8>)
    ensures
        r@ == payload.bytes(),
{
    match payload {
        Payload::Binary(data) => data,
        Payload::Url(data) => data.as_str().as_bytes_vec(),
        Payload::Json(data) => data.as_str().as_bytes_vec(),
    }
}

/// Sets the `Content-Type` that announces `payload`, in the place of any
/// that the headers hold.
fn announce(headers: &mut http::HeaderMap<http::HeaderValue>, payload: &Payload)
    requires
        has_room(*old(headers), 1),
    ensures
        header_entries(*final(headers)) == inserted(
            header_entries(*old(headers)),
            content_type_name(),
            payload.content_type(),
        ),
{
    let name = content_type();
    match payload {
        Payload::Binary(_) => {
            proof {
                reveal_strlit("application/cbor");
                lemma_ascii_text_bytes(CBOR);
            }
            map_insert(headers, name.as_bytes(), CBOR.as_bytes());
        },
        Payload::Url(_) => {
            proof {
                reveal_strlit("application/x-www-form-urlencoded");
                lemma_ascii_text_bytes(URL_ENCODED);
            }
            map_insert(headers, name.as_bytes(), URL_ENCODED.as_bytes());
        },
        Payload::Json(_) => {
            proof {
                reveal_strlit("application/json");
                lemma_ascii_text_bytes(JSON);
            }
            map_insert(headers, name.as_bytes(), JSON.as_bytes());
        },
    }
}

/// The response to a successful call: the headers that the function left
/// in the sink, the negotiated shape, and the payload as the body.
pub fn respond_success(
    request: &http::HeaderMap<http::HeaderValue>,
    payload: Payload,
    parts: &ResponseParts,
) -> (r: Response)
    requires
        parts.has_room(2),
    ensures
        r@ == success_response(header_entries(*request), payload, parts@),
{
    let mut headers = map_clone(&parts.headers);
    let negotiated = if wants_payload(request) {
        StatusCode::ok()
    } else {
        let target = redirect_location(request);
        proof {
            lemma_visible_ascii_is_value(target@);
        }
        map_append(&mut headers, location().as_bytes(), target.as_slice());
        StatusCode::see_other()
    };
    let status = match parts.status {
        Some(status) => status,
        None => negotiated,
    };
    announce(&mut headers, &payload);
    Response { status, headers, body: payload_bytes(payload) }
}

/// Answers a call of the server function at `path`, given the headers of
/// the request and how the call ended.
pub fn handle_server_fns(
    path: &str,
    headers: &http::HeaderMap<http::HeaderValue>,
    outcome: ServerFnOutcome,
) -> (r: Response)
    requires
        can_answer(outcome),
    ensures
        r@ == response_to(server_fn_name_of(path@), header_entries(*headers), outcome),
{
    match outcome {
        ServerFnOutcome::NotRegistered => {
            let name = server_fn_name(path);
            respond_not_found(name.as_str())
        },
        ServerFnOutcome::Failed(description) => respond_failure(description.as_str()),
        ServerFnOutcome::Returned(payload, parts) => respond_success(headers, payload, &parts),
    }
}

/// Whether the headers that a call left behind leave room for those that
/// the answer adds.
pub open spec fn can_answer(outcome: ServerFnOutcome) -> bool {
    outcome matches ServerFnOutcome::Returned(_, parts) ==> parts.has_room(2)
}

/// Answers a call of the server function at `path` as
/// [`handle_server_fns`] does, for every outcome: where the function left
/// so many headers in the sink that those of the answer do not fit, there
/// is no answer.
pub fn try_handle_server_fns(
    path: &str,
    headers: &http::HeaderMap<http::HeaderValue>,
    outcome: ServerFnOutcome,
) -> (r: Option<Response>)
    ensures
        r is Some <==> can_answer(outcome),
        r matches Some(response) ==> response@ == response_to(
            server_fn_name_of(path@),
            header_entries(*headers),
            outcome,
        ),
{
    let fits = match &outcome {
        ServerFnOutcome::Returned(_, parts) => parts.room_for(2),
        _ => true,
    };
    if fits {
        Some(handle_server_fns(path, headers, outcome))
    } else {
        None
    }
}

} // verus!
