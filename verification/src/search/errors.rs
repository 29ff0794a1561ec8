//! Failures of a backend call.

use crate::text::{decimal, decimal_string};
use vstd::prelude::*;
use vstd::std_specs::convert::FromSpecImpl;
use vstd::string::to_string_from_display_ensures;

verus! {

/// The error type of `serde_json`, carried as it came.
#[verifier::external_type_specification]
#[verifier::external_body]
pub struct ExJsonError(serde_json::Error);

/// The error type of `reqwest`, carried as it came.
#[verifier::external_type_specification]
#[verifier::external_body]
pub struct ExTransportError(reqwest::Error);

/// Why a backend call produced no JSON value.
#[derive(Debug)]
pub enum RequestError {
    /// The backend answered with a status other than 200.
    Api { status_code: u16, message: String },
    /// The HTTP exchange itself failed.
    Request(reqwest::Error),
    /// The backend answered 200 with a body that is no JSON document.
    Json(serde_json::Error),
}

/// The kinds of failure that a caller can tell apart.
#[derive(Clone, Copy, Debug, PartialEq, Eq, Structural)]
pub enum FailureKind {
    /// The HTTP exchange could not be completed.
    Transport,
    /// The backend answered 200 with a body that is no JSON.
    MalformedResponse,
    /// The backend answered 422.
    Unprocessable,
    /// The backend answered with another status that is not 200.
    RequestFailed,
}

/// Status with which the backend refuses a request it cannot process.
pub const STATUS_UNPROCESSABLE: u16 = 422;

/// Text of an `Api` failure.
pub open spec fn api_text(status_code: u16, message: Seq<char>) -> Seq<char> {
    "Search API Error ("@ + decimal(status_code as nat) + "): "@ + message
}

/// `text` is `cause`, as its `Display` writes it, behind the words for a
/// failed exchange.
pub open spec fn is_request_text(cause: reqwest::Error, text: Seq<char>) -> bool {
    exists|shown: String| #[trigger]
        to_string_from_display_ensures::<reqwest::Error>(&cause, shown) && text
            == "HTTP request failed: "@ + shown@
}

/// `text` is `cause`, as its `Display` writes it, behind the words for a
/// body that could not be read.
pub open spec fn is_json_text(cause: serde_json::Error, text: Seq<char>) -> bool {
    exists|shown: String| #[trigger]
        to_string_from_display_ensures::<serde_json::Error>(&cause, shown) && text
            == "JSON parsing failed: "@ + shown@
}

impl RequestError {
    /// `text` is the message of this error.
    pub open spec fn has_text(self, text: Seq<char>) -> bool {
        match self {
            RequestError::Api { status_code, message } => text == api_text(status_code, message@),
            RequestError::Request(cause) => is_request_text(cause, text),
            RequestError::Json(cause) => is_json_text(cause, text),
        }
    }

    /// The kind of this failure.
    pub open spec fn kind_of(self) -> FailureKind {
        match self {
            RequestError::Api { status_code, message } => if status_code == STATUS_UNPROCESSABLE {
                FailureKind::Unprocessable
            } else {
                FailureKind::RequestFailed
            },
            RequestError::Request(_) => FailureKind::Transport,
            RequestError::Json(_) => FailureKind::MalformedResponse,
        }
    }

    /// The kind of this failure.
    pub fn kind(&self) -> (kind: FailureKind)
        ensures
            kind == self.kind_of(),
    {
        match self {
            RequestError::Api { status_code, message: _ } => if *status_code
                == STATUS_UNPROCESSABLE {
                FailureKind::Unprocessable
            } else {
                FailureKind::RequestFailed
            },
            RequestError::Request(_) => FailureKind::Transport,
            RequestError::Json(_) => FailureKind::MalformedResponse,
        }
    }

    /// The message of this error, as a caller is shown it.
    pub fn describe(&self) -> (text: String)
        ensures
            self.has_text(text@),
    {
        match self {
            RequestError::Api { status_code, message } => {
                let mut text = "Search API Error (".to_owned();
                let code = decimal_string(*status_code as u32);
                text.append(code.as_str());
                text.append("): ");
                text.append(message.as_str());
                text
            },
            RequestError::Request(cause) => {
                let shown = cause.to_string();
                let mut text = "HTTP request failed: ".to_owned();
                text.append(shown.as_str());
                text
            },
            RequestError::Json(cause) => {
                let shown = cause.to_string();
                let mut text = "JSON parsing failed: ".to_owned();
                text.append(shown.as_str());
                text
            },
        }
    }
}

impl From<reqwest::Error> for RequestError {
    fn from(cause: reqwest::Error) -> (error: RequestError) {
        RequestError::Request(cause)
    }
}

impl FromSpecImpl<reqwest::Error> for RequestError {
    open spec fn obeys_from_spec() -> bool {
        true
    }

    open spec fn from_spec(cause: reqwest::Error) -> RequestError {
        RequestError::Request(cause)
    }
}

impl From<serde_json::Error> for RequestError {
    fn from(cause: serde_json::Error) -> (error: RequestError) {
        RequestError::Json(cause)
    }
}

impl FromSpecImpl<serde_json::Error> for RequestError {
    open spec fn obeys_from_spec() -> bool {
        true
    }

    open spec fn from_spec(cause: serde_json::Error) -> RequestError {
        RequestError::Json(cause)
    }
}

} // verus!
