//! The handling of one request: what to fetch for a path, and which response
//! answers what the fetch brought.
//!
//! A request runs in two steps around the fetch, which the caller performs:
//! [`begin`] names the object to fetch, or answers at once where the path is
//! rejected, and [`complete`] turns the outcome of the fetch into the
//! response. Nothing is kept between requests.

use vstd::prelude::*;
use vstd::string::{StrSliceExecFns, StringExecFns};
use vstd::utf8::{decode_utf8, encode_utf8, valid_utf8};
use crate::content_type::{
    classified,
    classify_guess,
    content_type_of,
    first_guess,
    guessed_type,
    html,
    html_type,
    is_header_safe,
};
use crate::errors::{
    description_of,
    fetch_error,
    status_of,
    Error,
    ErrorView,
    StoreFailure,
    STATUS_INTERNAL_ERROR,
    STATUS_NOT_FOUND,
};
use crate::path::{index_document, resolve, resolved, stays_below_root};

verus! {

/// Status of a response that carries the object.
pub const STATUS_OK: u16 = 200;

/// The bytes of an object, with the key they were fetched under.
#[derive(Debug, PartialEq, Eq)]
pub struct ObjectPayload {
    pub key: String,
    pub bytes: Vec<u8>,
}

/// The object that a request needs from the store.
#[derive(Debug, PartialEq, Eq)]
pub struct FetchRequest {
    pub bucket: String,
    pub key: String,
}

/// An HTTP response: status, the value of the `Content-Type` header where
/// there is one, and the body.
#[derive(Debug, PartialEq, Eq)]
pub struct HttpResponse {
    pub status: u16,
    pub content_type: Option<String>,
    pub body: Vec<u8>,
}

/// The mathematical value of an [`HttpResponse`].
pub ghost struct ResponseView {
    pub status: u16,
    pub content_type: Option<Seq<char>>,
    pub body: Seq<u8>,
}

impl View for HttpResponse {
    type V = ResponseView;

    open spec fn view(&self) -> ResponseView {
        ResponseView {
            status: self.status,
            content_type: self.content_type.deep_view(),
            body: self.body@,
        }
    }
}

/// What the caller does next for a request.
#[derive(Debug, PartialEq, Eq)]
pub enum Step {
    /// Fetch this object, then call [`complete`] with the outcome.
    Fetch(FetchRequest),
    /// Send this response; nothing is fetched.
    Respond(HttpResponse),
}

/// Whether a response can be sent as it is: its status is one of the three
/// that this gateway answers with, and its content type, if it has one, is a
/// valid header value.
pub open spec fn is_sendable(response: ResponseView) -> bool {
    &&& response.status == STATUS_OK || response.status == STATUS_NOT_FOUND || response.status
        == STATUS_INTERNAL_ERROR
    &&& response.content_type matches Some(mime) ==> is_header_safe(mime)
}

/// The response to a failure: the failure's status, no content type, and the
/// failure's description as the body.
pub open spec fn failure_response(error: ErrorView) -> ResponseView {
    ResponseView {
        status: status_of(error),
        content_type: None,
        body: encode_utf8(description_of(error)),
    }
}

/// The response that carries an object: status 200, the classification of
/// what the extension table says of its key, and the object's bytes, unchanged.
pub open spec fn object_response(guess: Option<Seq<char>>, bytes: Seq<u8>) -> ResponseView {
    ResponseView { status: STATUS_OK, content_type: Some(classified(guess)), body: bytes }
}

/// The response to a request, given the outcome of its fetch.
pub open spec fn response_to(outcome: Result<(Seq<char>, Seq<u8>), ErrorView>) -> ResponseView {
    match outcome {
        Ok((key, bytes)) => object_response(guessed_type(key), bytes),
        Err(error) => failure_response(error),
    }
}

/// The mathematical value of the outcome of a fetch.
pub open spec fn outcome_view(outcome: Result<ObjectPayload, Error>) -> Result<
    (Seq<char>, Seq<u8>),
    ErrorView,
> {
    match outcome {
        Ok(payload) => Ok((payload.key@, payload.bytes@)),
        Err(error) => Err(error@),
    }
}

/// The description that `String::from_utf8` gives of why `bytes` are not
/// UTF-8 text.
pub uninterp spec fn decoding_failure(bytes: Seq<u8>) -> Seq<char>;

/// The text that `bytes` encode, or the description of why they encode none.
pub open spec fn decoded(bytes: Seq<u8>) -> Result<Seq<char>, Seq<char>> {
    if valid_utf8(bytes) {
        Ok(decode_utf8(bytes))
    } else {
        Err(decoding_failure(bytes))
    }
}

/// The response of the root route to the decoded index document: the text as
/// an HTML page, or an internal error that says why there is no text.
pub open spec fn page_response(decoded: Result<Seq<char>, Seq<char>>) -> ResponseView {
    match decoded {
        Ok(text) => ResponseView {
            status: STATUS_OK,
            content_type: Some(html_type()),
            body: encode_utf8(text),
        },
        Err(reason) => failure_response(ErrorView::InternalError(reason)),
    }
}

/// The response of the root route, given the outcome of its fetch. A failed
/// fetch is answered as on any other route; only an index document that is no
/// text is an internal error.
pub open spec fn root_response_to(
    outcome: Result<(Seq<char>, Seq<u8>), ErrorView>,
) -> ResponseView {
    match outcome {
        Ok((_, bytes)) => page_response(decoded(bytes)),
        Err(error) => failure_response(error),
    }
}

/// `String::from_utf8`, with the error rendered through its `Display`. It
/// succeeds exactly on valid UTF-8 and then returns the text that the bytes
/// encode; the description of a failure is only named.
#[verifier::external_body]
fn decode_text(bytes: Vec<u8>) -> (outcome: Result<String, String>)
    ensures
        match outcome {
            Ok(text) => valid_utf8(bytes@) && text@ == decode_utf8(bytes@),
            Err(reason) => !valid_utf8(bytes@) && reason@ == decoding_failure(bytes@),
        },
{
    String::from_utf8(bytes).map_err(|error| error.to_string())
}

/// The response to a failure.
pub fn respond_failure(error: &Error) -> (response: HttpResponse)
    ensures
        response@ == failure_response(error@),
        is_sendable(response@),
{
    let text = error.description();
    HttpResponse { status: error.status(), content_type: None, body: text.as_str().as_bytes_vec() }
}

/// The response that carries an object's bytes, given what the extension
/// table says of its key.
pub fn respond_object(guess: Option<String>, bytes: Vec<u8>) -> (response: HttpResponse)
    ensures
        response@ == object_response(guess.deep_view(), bytes@),
        is_sendable(response@),
{
    let mime = classify_guess(guess);
    HttpResponse { status: STATUS_OK, content_type: Some(mime), body: bytes }
}

/// First step of a request for `raw_path`: the object to fetch from `bucket`,
/// or, where the path is rejected, the response that says so.
pub fn begin(raw_path: &str, bucket: &str) -> (step: Step)
    ensures
        match resolved(raw_path@) {
            Some(key) => step matches Step::Fetch(request) && request.bucket@ == bucket@
                && request.key@ == key,
            None => step matches Step::Respond(response) && response@ == failure_response(
                ErrorView::Rejected,
            ),
        },
        step matches Step::Fetch(request) ==> stays_below_root(request.key@),
        step matches Step::Respond(response) ==> is_sendable(response@),
{
    match resolve(raw_path) {
        Ok(key) => Step::Fetch(FetchRequest { bucket: String::from_str(bucket), key }),
        Err(error) => Step::Respond(respond_failure(&error)),
    }
}

/// Last step of a request: the response to the outcome of the fetch. An object
/// is sent with status 200, the content type of its key and its bytes as they
/// are; a failure is sent with its status and its description as the body.
pub fn complete(outcome: Result<ObjectPayload, Error>) -> (response: HttpResponse)
    ensures
        response@ == response_to(outcome_view(outcome)),
        is_sendable(response@),
{
    match outcome {
        Ok(payload) => {
            let guess = first_guess(payload.key.as_str());
            respond_object(guess, payload.bytes)
        },
        Err(error) => respond_failure(&error),
    }
}

/// The object that the root route needs from `bucket`: the index document.
pub fn begin_root(bucket: &str) -> (request: FetchRequest)
    ensures
        request.bucket@ == bucket@,
        request.key@ == index_document(),
{
    FetchRequest { bucket: String::from_str(bucket), key: String::from_str("index.html") }
}

/// The response of the root route to the decoded index document.
pub fn respond_page(decoded: Result<String, String>) -> (response: HttpResponse)
    ensures
        response@ == page_response(
            match decoded {
                Ok(text) => Ok(text@),
                Err(reason) => Err(reason@),
            },
        ),
        is_sendable(response@),
{
    match decoded {
        Ok(text) => HttpResponse {
            status: STATUS_OK,
            content_type: Some(html()),
            body: text.as_str().as_bytes_vec(),
        },
        Err(reason) => respond_failure(&Error::InternalError(reason)),
    }
}

/// Last step of the root route: the index document is sent as an HTML page,
/// with status 200 and its bytes unchanged, where it is valid UTF-8 text. Bytes
/// that are no text are answered as an internal error, with status 500 and the
/// reason as the body. A failed fetch is answered as [`complete`] answers it:
/// with the failure's status, 404 for a missing index document, and its
/// description as the body.
pub fn complete_root(outcome: Result<ObjectPayload, Error>) -> (response: HttpResponse)
    ensures
        response@ == root_response_to(outcome_view(outcome)),
        outcome matches Ok(payload) ==> (valid_utf8(payload.bytes@) ==> response@.body
            == payload.bytes@),
        is_sendable(response@),
{
    broadcast use vstd::utf8::decode_utf8_encode_utf8;

    match outcome {
        Ok(payload) => respond_page(decode_text(payload.bytes)),
        Err(error) => respond_failure(&error),
    }
}

/// Whatever went wrong with a fetch, the response has status 404 and carries
/// the description that the store's client gave, and whatever was fetched, the
/// response has status 200 and carries exactly the bytes that were stored.
pub proof fn lemma_fetch_decides_status(
    key: Seq<char>,
    bytes: Seq<u8>,
    failure: StoreFailure,
    detail: Seq<char>,
)
    ensures
        response_to(Ok((key, bytes))).status == STATUS_OK,
        response_to(Ok((key, bytes))).body == bytes,
        response_to(Err(fetch_error(failure, detail))).status == STATUS_NOT_FOUND,
        response_to(Err(fetch_error(failure, detail))).body == encode_utf8(detail),
        response_to(Err(fetch_error(failure, detail))).content_type is None,
{
}

/// The root route answers a failed fetch exactly as every other route does,
/// so with status 404 and the description that the store's client gave; it
/// answers with status 200 and the stored bytes exactly where these are text,
/// and with status 500 exactly where they are not.
pub proof fn lemma_root_route_follows_the_fetch(
    key: Seq<char>,
    bytes: Seq<u8>,
    failure: StoreFailure,
    detail: Seq<char>,
)
    ensures
        root_response_to(Err(fetch_error(failure, detail))) == response_to(
            Err(fetch_error(failure, detail)),
        ),
        root_response_to(Err(fetch_error(failure, detail))).status == STATUS_NOT_FOUND,
        root_response_to(Err(fetch_error(failure, detail))).body == encode_utf8(detail),
        valid_utf8(bytes) ==> root_response_to(Ok((key, bytes))).status == STATUS_OK
            && root_response_to(Ok((key, bytes))).body == bytes
            && root_response_to(Ok((key, bytes))).content_type == Some(html_type()),
        !valid_utf8(bytes) ==> root_response_to(Ok((key, bytes))).status
            == STATUS_INTERNAL_ERROR,
{
    broadcast use vstd::utf8::decode_utf8_encode_utf8;

}

/// The response to a request is made of that request's own payload: of two
/// requests, each is answered with the bytes fetched for it and with the
/// content type of its own key, whatever the other one fetched.
pub proof fn lemma_requests_do_not_interfere(
    first_key: Seq<char>,
    first_bytes: Seq<u8>,
    second_key: Seq<char>,
    second_bytes: Seq<u8>,
)
    ensures
        response_to(Ok((first_key, first_bytes))).body == first_bytes,
        response_to(Ok((first_key, first_bytes))).content_type == Some(
            content_type_of(first_key),
        ),
        response_to(Ok((second_key, second_bytes))).body == second_bytes,
        response_to(Ok((second_key, second_bytes))).content_type == Some(
            content_type_of(second_key),
        ),
{
}

} // verus!
