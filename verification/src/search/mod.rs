//! The HTTP bridge: which request stands for a backend call, and what the
//! backend's answer means.

pub mod errors;
pub mod json;
pub mod multipart;
pub mod types;

use crate::config::{endpoint_url, resolve, BASE_URL};
use crate::search::errors::{FailureKind, RequestError, STATUS_UNPROCESSABLE};
use crate::search::json::{body_outcome, decode_body, json_parse};
use crate::search::multipart::form_parts;
use reqwest::multipart::Form;
use serde_json::Value;
use vstd::prelude::*;

verus! {

/// HTTP method of a backend call.
#[derive(Clone, Copy, Debug, PartialEq, Eq, Structural)]
pub enum Method {
    Get,
    Post,
}

/// Name of the header that announces the encoding of a request.
pub const CONTENT_TYPE: &'static str = "content-type";

/// Content type announced with query parameters.
pub const JSON_CONTENT: &'static str = "application/json";

/// Content type announced with a multipart body.
pub const FORM_CONTENT: &'static str = "multipart/form-data";

/// Status of a response whose body is the result.
pub const STATUS_OK: u16 = 200;

pub const UNPROCESSABLE_MESSAGE: &'static str = "Could not process request";

pub const FAILED_MESSAGE: &'static str = "Request failed";

/// A list of names with their values: query parameters, headers or the parts
/// of a form.
pub type Pairs = Seq<(Seq<char>, Seq<char>)>;

/// One HTTP request, ready to be sent.
#[derive(Debug)]
pub struct HttpRequest {
    pub method: Method,
    pub url: String,
    /// Headers in the order in which they are to be added.
    pub headers: Vec<(String, String)>,
    /// Query parameters, if the call carries any.
    pub query: Option<Vec<(String, String)>>,
    /// Multipart body, if the call carries one.
    pub multipart: Option<Form>,
}

/// What an `HttpRequest` says, as plain values.
pub struct HttpRequestView {
    pub method: Method,
    pub url: Seq<char>,
    pub headers: Pairs,
    pub query: Option<Pairs>,
    pub parts: Option<Pairs>,
}

impl View for HttpRequest {
    type V = HttpRequestView;

    open spec fn view(&self) -> HttpRequestView {
        HttpRequestView {
            method: self.method,
            url: self.url@,
            headers: self.headers.deep_view(),
            query: self.query.deep_view(),
            parts: match self.multipart {
                Some(form) => Some(form_parts(form)),
                None => None,
            },
        }
    }
}

/// The content-type headers of a request: one for query parameters where it
/// has them, then one for a multipart body where it has one.
pub open spec fn content_headers(has_query: bool, has_form: bool) -> Pairs {
    let for_query = if has_query {
        seq![(CONTENT_TYPE@, JSON_CONTENT@)]
    } else {
        Seq::empty()
    };
    let for_form = if has_form {
        seq![(CONTENT_TYPE@, FORM_CONTENT@)]
    } else {
        Seq::empty()
    };
    for_query + for_form
}

/// What the bridge does once the status of a response is known.
#[derive(Debug)]
pub enum StatusStep {
    /// The body holds the result: read it and decode it.
    ReadBody,
    /// The call has failed; the body is not read.
    Fail(RequestError),
}

/// Message of the failure that a status other than 200 stands for.
pub open spec fn status_message(status: u16) -> Seq<char> {
    if status == STATUS_UNPROCESSABLE {
        UNPROCESSABLE_MESSAGE@
    } else {
        FAILED_MESSAGE@
    }
}

/// `error` is the failure that the status `status` stands for.
pub open spec fn is_status_failure(error: RequestError, status: u16) -> bool {
    &&& error matches RequestError::Api { status_code, message }
    &&& status_code == status
    &&& message@ == status_message(status)
}

/// Classifies a response by its status: 200 asks for the body, 422 fails
/// with the message for an unprocessable request, every other status fails
/// with the general message. The failure carries the status.
pub fn after_status(status: u16) -> (step: StatusStep)
    ensures
        match step {
            StatusStep::ReadBody => status == STATUS_OK,
            StatusStep::Fail(error) => status != STATUS_OK && is_status_failure(error, status),
        },
{
    if status == STATUS_OK {
        StatusStep::ReadBody
    } else if status == STATUS_UNPROCESSABLE {
        StatusStep::Fail(
            RequestError::Api { status_code: status, message: UNPROCESSABLE_MESSAGE.to_owned() },
        )
    } else {
        StatusStep::Fail(
            RequestError::Api { status_code: status, message: FAILED_MESSAGE.to_owned() },
        )
    }
}

/// `outcome` is what a response with `status` and `body` means: for status
/// 200 what reading the body gives, for any other status the failure that
/// the status stands for.
pub open spec fn is_outcome(outcome: Result<Value, RequestError>, status: u16, body: Seq<char>) -> bool {
    if status == STATUS_OK {
        outcome == body_outcome(json_parse(body))
    } else {
        outcome matches Err(error) && is_status_failure(error, status)
    }
}

/// The outcome of a call whose response is at hand in full: the JSON value
/// of the body for status 200, a failure otherwise.
pub fn classify(status: u16, body: &str) -> (outcome: Result<Value, RequestError>)
    ensures
        is_outcome(outcome, status, body@),
{
    match after_status(status) {
        StatusStep::ReadBody => decode_body(body),
        StatusStep::Fail(error) => Err(error),
    }
}

/// Only a 200 response succeeds, and the kind of a failure follows from the
/// status: a body that is no JSON behind a 200, an unprocessable request
/// behind a 422, a failed request behind every other status.
pub proof fn lemma_outcome_kind(outcome: Result<Value, RequestError>, status: u16, body: Seq<char>)
    requires
        is_outcome(outcome, status, body),
    ensures
        outcome is Ok ==> status == STATUS_OK,
        outcome matches Err(error) ==> error.kind_of() == (if status == STATUS_OK {
            FailureKind::MalformedResponse
        } else if status == STATUS_UNPROCESSABLE {
            FailureKind::Unprocessable
        } else {
            FailureKind::RequestFailed
        }),
{
}

/// The bridge to one backend.
#[derive(Clone, Debug, PartialEq, Eq)]
pub struct SearchClient {
    pub base_url: String,
}

impl SearchClient {
    /// A bridge to the backend at `BASE_URL`.
    pub fn new() -> (client: Self)
        ensures
            client.base_url@ == BASE_URL@,
    {
        SearchClient { base_url: BASE_URL.to_owned() }
    }

    /// A bridge to the backend at `base_url`.
    pub fn with_base_url(base_url: String) -> (client: Self)
        ensures
            client.base_url == base_url,
    {
        SearchClient { base_url }
    }

    /// The request that stands for one call of `endpoint`. It goes to the
    /// endpoint's URL below the base URL and carries whichever of `params`
    /// and `multipart` is present, each announced by its content-type header.
    pub fn request(
        &self,
        http_method: Method,
        endpoint: &str,
        params: Option<Vec<(String, String)>>,
        multipart: Option<Form>,
    ) -> (request: HttpRequest)
        ensures
            request.method == http_method,
            request.url@ == endpoint_url(self.base_url@, endpoint@),
            request.headers.deep_view() == content_headers(params is Some, multipart is Some),
            request.query == params,
            request.multipart == multipart,
    {
        let url = resolve(self.base_url.as_str(), endpoint);
        let mut headers: Vec<(String, String)> = Vec::new();
        if params.is_some() {
            headers.push((CONTENT_TYPE.to_owned(), JSON_CONTENT.to_owned()));
        }
        if multipart.is_some() {
            headers.push((CONTENT_TYPE.to_owned(), FORM_CONTENT.to_owned()));
        }
        HttpRequest { method: http_method, url, headers, query: params, multipart }
    }
}

} // verus!
