//! The errors that a query can end in, and the rule that tells the service's
//! own error reports from other JSON.

use vstd::prelude::*;

use crate::json::{elements_of, json_view, member, text_of, Json};

verus! {

/// Errors which may occur when creating a request body.
#[non_exhaustive]
#[derive(Debug)]
pub enum BodyError {
    /// The body could not be written as JSON.
    JsonEncodee {
        /// The source of the error.
        source: serde_json::Error,
    },
}

/// What a query returns in place of a result. `E` is the error type of the
/// client that carried the request.
#[allow(inconsistent_fields)]
#[derive(Debug)]
pub enum ApiError<E> {
    /// The client encountered an error.
    Client {
        /// The client error.
        source: E,
    },
    /// The URL failed to parse.
    UrlParse {
        /// The source of the error.
        source: url::ParseError,
    },
    /// Body data could not be created.
    Body {
        /// The source of the error.
        source: BodyError,
    },
    /// The response was JSON, but not of the shape that the caller expects.
    DataType {
        /// The source of the error.
        source: serde_json::Error,
        /// The name of the type that could not be decoded.
        typename: &'static str,
    },
    /// Porkbun returned an error message.
    PorkBun {
        /// The error message from Porkbun.
        message: String,
        /// The error status from Porkbun.
        status: String,
    },
    /// Porkbun returned an HTTP error with JSON of an unknown shape.
    PorkBunUnrecognized {
        /// The full value from Porkbun.
        obj: serde_json::Value,
    },
    /// The request body could not be written as JSON, or the response body
    /// could not be read as JSON.
    Json {
        /// The source of the error.
        source: serde_json::Error,
    },
}

impl From<serde_json::Error> for BodyError {
    fn from(source: serde_json::Error) -> (error: Self) {
        BodyError::JsonEncodee { source }
    }
}

impl vstd::std_specs::convert::FromSpecImpl<serde_json::Error> for BodyError {
    open spec fn obeys_from_spec() -> bool {
        true
    }

    open spec fn from_spec(source: serde_json::Error) -> Self {
        BodyError::JsonEncodee { source }
    }
}

impl<E> From<url::ParseError> for ApiError<E> {
    fn from(source: url::ParseError) -> (error: Self) {
        ApiError::UrlParse { source }
    }
}

impl<E> vstd::std_specs::convert::FromSpecImpl<url::ParseError> for ApiError<E> {
    open spec fn obeys_from_spec() -> bool {
        true
    }

    open spec fn from_spec(source: url::ParseError) -> Self {
        ApiError::UrlParse { source }
    }
}

impl<E> From<BodyError> for ApiError<E> {
    fn from(source: BodyError) -> (error: Self) {
        ApiError::Body { source }
    }
}

impl<E> vstd::std_specs::convert::FromSpecImpl<BodyError> for ApiError<E> {
    open spec fn obeys_from_spec() -> bool {
        true
    }

    open spec fn from_spec(source: BodyError) -> Self {
        ApiError::Body { source }
    }
}

impl<E> From<serde_json::Error> for ApiError<E> {
    fn from(source: serde_json::Error) -> (error: Self) {
        ApiError::Json { source }
    }
}

impl<E> vstd::std_specs::convert::FromSpecImpl<serde_json::Error> for ApiError<E> {
    open spec fn obeys_from_spec() -> bool {
        true
    }

    open spec fn from_spec(source: serde_json::Error) -> Self {
        ApiError::Json { source }
    }
}

/// The status and the message of an error report. A report is a JSON object
/// whose members `status` and `message` are both strings, whatever else it
/// holds, or a JSON array of exactly two strings, read in that order.
/// Any other value is no report.
pub open spec fn error_report(value: Json) -> Option<(Seq<char>, Seq<char>)> {
    match value {
        Json::List(items) => {
            if items.len() == 2 {
                both(items[0].text(), items[1].text())
            } else {
                None
            }
        },
        Json::Object(_) => match (value.member("status"@), value.member("message"@)) {
            (Some(status), Some(message)) => both(status.text(), message.text()),
            _ => None,
        },
        _ => None,
    }
}

/// Two texts as a pair, where both are there.
pub open spec fn both(first: Option<Seq<char>>, second: Option<Seq<char>>) -> Option<(Seq<char>, Seq<char>)> {
    match (first, second) {
        (Some(a), Some(b)) => Some((a, b)),
        _ => None,
    }
}

/// Whether `error` is what the service's answer `value` to a failed request
/// stands for: the report in it, or else the whole value.
pub open spec fn reports<E>(value: serde_json::Value, error: ApiError<E>) -> bool {
    match error_report(json_view(value)) {
        Some((s, m)) => error matches ApiError::PorkBun { message, status } && status@ == s
            && message@ == m,
        None => error == (ApiError::<E>::PorkBunUnrecognized { obj: value }),
    }
}

/// Whether `error` is what an answer with the content `content` to a failed
/// request stands for: the report in it, or else a value with that content.
pub open spec fn stands_for<E>(content: Json, error: ApiError<E>) -> bool {
    match error_report(content) {
        Some((s, m)) => error matches ApiError::PorkBun { message, status } && status@ == s
            && message@ == m,
        None => error matches ApiError::PorkBunUnrecognized { obj } && json_view(obj) == content,
    }
}

/// Reads a pair of strings out of two JSON values, if both are strings.
fn both_texts(first: &serde_json::Value, second: &serde_json::Value) -> (texts: Option<(String, String)>)
    ensures
        texts is Some == both(json_view(*first).text(), json_view(*second).text()) is Some,
        texts matches Some((a, b)) ==> Some((a@, b@)) == both(
            json_view(*first).text(),
            json_view(*second).text(),
        ),
{
    match text_of(first) {
        Some(a) => match text_of(second) {
            Some(b) => Some((a, b)),
            None => None,
        },
        None => None,
    }
}

/// Finds the status and the message in a value, if it is an error report.
pub fn read_report(value: &serde_json::Value) -> (report: Option<(String, String)>)
    ensures
        report is Some == error_report(json_view(*value)) is Some,
        report matches Some((status, message)) ==> Some((status@, message@)) == error_report(
            json_view(*value),
        ),
{
    match elements_of(value) {
        Some(items) => {
            if items.len() == 2 {
                both_texts(&items[0], &items[1])
            } else {
                None
            }
        },
        None => match member(value, "status") {
            Some(status) => match member(value, "message") {
                Some(message) => both_texts(status, message),
                None => None,
            },
            None => None,
        },
    }
}

impl<E> ApiError<E> {
    /// Create an API error in a client error.
    pub fn client(source: E) -> (error: Self)
        ensures
            error == (ApiError::<E>::Client { source }),
    {
        ApiError::Client { source }
    }

    /// The error that the service's answer to a failed request stands for:
    /// `PorkBun` with the status and message of the report in `value`, or
    /// `PorkBunUnrecognized` with `value` itself where it is no report.
    pub fn from_porkbun(value: serde_json::Value) -> (error: Self)
        ensures
            reports(value, error),
    {
        match read_report(&value) {
            Some((status, message)) => ApiError::PorkBun { message, status },
            None => ApiError::PorkBunUnrecognized { obj: value },
        }
    }

    /// The error for a response that is JSON but does not decode as the type
    /// that the caller expects: `DataType` with the decoder's error and the
    /// name of that type.
    pub fn data_type(source: serde_json::Error, typename: &'static str) -> (error: Self)
        ensures
            error == (ApiError::<E>::DataType { source, typename }),
    {
        ApiError::DataType { source, typename }
    }
}

} // verus!
