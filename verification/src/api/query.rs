//! The steps of a query: from an endpoint and a client to a request, and
//! from the answer to a result or an error.
//!
//! A query resolves the endpoint's path to a URL, adds the endpoint's
//! parameters to it, merges the client's authentication fields into the
//! endpoint's body fields, and writes them as JSON. A request without any
//! field has no body and no `Content-Type`; any other request carries the
//! JSON text of its fields and the type `application/json`. The answer is
//! read as JSON; with a status outside 200 to 299 it becomes the error that
//! the service reports, otherwise it is decoded as the caller asks.

use std::borrow::Cow;
use vstd::prelude::*;
use vstd::string::StringExecFns;

use crate::address::{join, joined_url, pairs_fit, too_long, url_length, url_pairs, url_place, Pair};
use crate::api::client::{success, Client, Method, Request, Response};
use crate::api::endpoint::Endpoint;
use crate::api::error::{reports, stands_for, ApiError};
use crate::api::params::{text, QueryParams};
use crate::json::{append_members, encode, encoded_object, has_no_members, json_view, object_members, parse, parsed_json, Members, Object};

verus! {

/// Whether `resolved` is the URL that `path` names relative to `base`, or
/// `UrlParse` where it names none.
pub open spec fn resolves<E>(base: url::Url, path: Seq<char>, resolved: Result<url::Url, ApiError<E>>) -> bool {
    match joined_url(base, path) {
        Some(url) => resolved matches Ok(found) && found == url,
        None => resolved matches Err(ApiError::UrlParse { .. }),
    }
}

/// The URL of an endpoint: its path, read relative to the base URL of the
/// service. A client answers `rest_endpoint` with it.
pub fn resolve<E>(base: &url::Url, path: &str) -> (resolved: Result<url::Url, ApiError<E>>)
    ensures
        resolves(*base, path@, resolved),
{
    match join(base, path) {
        Ok(url) => Ok(url),
        Err(source) => Err(ApiError::from(source)),
    }
}

/// Whether `request` asks for `method` at `url` and names `content_type` as
/// the type of its body.
pub open spec fn request_is(
    request: Request,
    method: Method,
    url: url::Url,
    content_type: Option<Seq<char>>,
) -> bool {
    &&& request.method == method
    &&& request.url == url
    &&& match content_type {
        Some(t) => request.content_type matches Some(s) && s@ == t,
        None => request.content_type is None,
    }
}

/// Whether `framed` is the request for `method` at `url` whose fields were
/// encoded as `encoded`: `None` stands for a request without fields.
pub open spec fn frames<E>(
    method: Method,
    url: url::Url,
    encoded: Option<Result<Vec<u8>, serde_json::Error>>,
    framed: Result<(Request, Vec<u8>), ApiError<E>>,
) -> bool {
    match encoded {
        None => framed matches Ok((request, data)) && request_is(request, method, url, None)
            && data@ == Seq::<u8>::empty(),
        Some(Ok(bytes)) => framed matches Ok((request, data)) && request_is(
            request,
            method,
            url,
            Some("application/json"@),
        ) && data == bytes,
        Some(Err(e)) => framed matches Err(ApiError::Json { source }) && source == e,
    }
}

/// Puts a request together from its method, its URL and the encoding of its
/// fields, where it has fields.
pub fn frame<E>(
    method: Method,
    url: url::Url,
    encoded: Option<Result<Vec<u8>, serde_json::Error>>,
) -> (framed: Result<(Request, Vec<u8>), ApiError<E>>)
    ensures
        frames(method, url, encoded, framed),
{
    match encoded {
        None => Ok((Request { method, url, content_type: None }, Vec::new())),
        Some(Ok(bytes)) => Ok(
            (
                Request { method, url, content_type: Some(String::from_str("application/json")) },
                bytes,
            ),
        ),
        Some(Err(source)) => Err(ApiError::Json { source }),
    }
}

/// Whether `sent` is `url` with `pairs` added: the pairs stand behind those
/// of its query string, in their order, and nothing else of it differs.
/// Without pairs it is `url` itself.
pub open spec fn extends(url: url::Url, pairs: Seq<Pair>, sent: url::Url) -> bool {
    if pairs.len() == 0 {
        sent == url
    } else {
        url_pairs(sent) == url_pairs(url) + pairs && url_place(sent) == url_place(url)
    }
}

/// Whether `assembled` is the request that the parts of a query make.
///
/// The URL of the request is `url` with `pairs` added as `extends` says; a
/// URL without room for them gives `UrlParse`. The body is the JSON text of
/// `fields`, sent as `application/json`; without fields there is no body
/// and no content type. Fields that cannot be written as JSON give `Json`.
pub open spec fn assembles<E>(
    method: Method,
    url: url::Url,
    pairs: Seq<Pair>,
    fields: Members,
    assembled: Result<(Request, Vec<u8>), ApiError<E>>,
) -> bool {
    if pairs.len() > 0 && !pairs_fit(url_length(url), pairs) {
        assembled matches Err(ApiError::UrlParse { .. })
    } else if fields == Members::empty() {
        &&& assembled matches Ok((request, data))
        &&& request.method == method
        &&& extends(url, pairs, request.url)
        &&& request.content_type is None
        &&& data@ == Seq::<u8>::empty()
    } else {
        match encoded_object(fields) {
            Some(bytes) => {
                &&& assembled matches Ok((request, data))
                &&& request.method == method
                &&& extends(url, pairs, request.url)
                &&& request.content_type matches Some(t) && t@ == "application/json"@
                &&& data@ == bytes
            },
            None => assembled matches Err(ApiError::Json { .. }),
        }
    }
}

/// In an assembled request the parameters stand behind the pairs that the
/// resolved URL had, each of them once and in the order in which the
/// endpoint gave them: none is dropped, none is doubled, none is moved.
pub proof fn parameters_keep_their_order<E>(
    method: Method,
    url: url::Url,
    pairs: Seq<Pair>,
    fields: Members,
    assembled: Result<(Request, Vec<u8>), ApiError<E>>,
)
    requires
        assembles(method, url, pairs, fields, assembled),
        assembled is Ok,
    ensures
        ({
            let sent = url_pairs(assembled->Ok_0.0.url);
            let had = url_pairs(url);
            &&& sent.len() == had.len() + pairs.len()
            &&& forall|i: int| 0 <= i < had.len() ==> sent[i] == had[i]
            &&& forall|i: int| 0 <= i < pairs.len() ==> sent[had.len() + i] == pairs[i]
        }),
{
}

/// Assembles the request of a query from the endpoint's method, the resolved
/// URL, the endpoint's parameters and body fields, and the client's
/// authentication fields. Where both name a field, the client's value stands.
pub fn assemble<E>(
    method: Method,
    url: url::Url,
    parameters: &QueryParams<'_>,
    body: Object,
    auth: Object,
) -> (assembled: Result<(Request, Vec<u8>), ApiError<E>>)
    ensures
        assembles(
            method,
            url,
            parameters@,
            object_members(body).union_prefer_right(object_members(auth)),
            assembled,
        ),
{
    let mut url = url;
    if !parameters.is_empty() && !parameters.try_add_to_url(&mut url) {
        return Err(ApiError::UrlParse { source: too_long() });
    }
    let mut body = body;
    let mut auth = auth;
    append_members(&mut body, &mut auth);
    if has_no_members(&body) {
        frame(method, url, None)
    } else {
        let encoded = encode(&body);
        frame(method, url, Some(encoded))
    }
}

/// Whether `assembled` is a request that the endpoint may ask of the client:
/// the request that `assembles` describes, made of what the methods of the
/// endpoint and of the client returned. Where the client does not resolve
/// the endpoint's path, `assembled` is the client's error, and none of the
/// other methods is asked.
pub open spec fn asks<E: Endpoint, C: Client>(
    endpoint: &E,
    client: &C,
    assembled: Result<(Request, Vec<u8>), ApiError<C::Error>>,
) -> bool {
    exists|path: Cow<'static, str>, place: &str, resolved: Result<url::Url, ApiError<C::Error>>|
        {
            &&& #[trigger] call_ensures(E::endpoint, (endpoint,), path)
            &&& place@ == path@
            &&& #[trigger] call_ensures(C::rest_endpoint, (client, place), resolved)
            &&& match resolved {
                Err(error) => assembled matches Err(e) && e == error,
                Ok(url) => asks_at(endpoint, client, url, assembled),
            }
        }
}

/// Whether `assembled` is a request that the endpoint may ask of the client
/// at the resolved URL.
pub open spec fn asks_at<E: Endpoint, C: Client>(
    endpoint: &E,
    client: &C,
    url: url::Url,
    assembled: Result<(Request, Vec<u8>), ApiError<C::Error>>,
) -> bool {
    exists|method: Method, parameters: QueryParams<'_>, body: Object, auth: Object|
        {
            &&& #[trigger] call_ensures(E::method, (endpoint,), method)
            &&& #[trigger] call_ensures(E::parameters, (endpoint,), parameters)
            &&& #[trigger] call_ensures(E::body, (endpoint,), body)
            &&& #[trigger] call_ensures(C::auth, (client,), auth)
            &&& assembles(
                method,
                url,
                parameters@,
                object_members(body).union_prefer_right(object_members(auth)),
                assembled,
            )
        }
}

/// Makes the request that the endpoint asks of the client: resolves the
/// path, then assembles method, URL, parameters and fields.
pub fn request_for<E: Endpoint, C: Client>(endpoint: &E, client: &C) -> (assembled: Result<
    (Request, Vec<u8>),
    ApiError<C::Error>,
>)
    ensures
        asks(endpoint, client, assembled),
{
    let path = endpoint.endpoint();
    match client.rest_endpoint(text(&path)) {
        Err(error) => Err(error),
        Ok(url) => {
            let method = endpoint.method();
            let parameters = endpoint.parameters();
            let body = endpoint.body();
            let auth = client.auth();
            assemble(method, url, &parameters, body, auth)
        },
    }
}

/// The error that an answer with a failing status stands for: `Json` where
/// the body was no JSON, and otherwise what the service reports in it.
pub open spec fn fails_as<E>(parsed: Result<serde_json::Value, serde_json::Error>, error: ApiError<E>) -> bool {
    match parsed {
        Err(e) => error matches ApiError::Json { source } && source == e,
        Ok(value) => reports(value, error),
    }
}

/// Turns the parsed body of an answer with a failing status into the error
/// that it stands for.
pub fn failure_of<E>(parsed: Result<serde_json::Value, serde_json::Error>) -> (error: ApiError<E>)
    ensures
        fails_as(parsed, error),
{
    match parsed {
        Err(source) => ApiError::Json { source },
        Ok(value) => ApiError::from_porkbun(value),
    }
}

/// Whether `outcome` is what the decoder makes of the body `value` of an
/// answer with a succeeding status: the decoded value, or `DataType` with
/// the decoder's error and the name of the expected type.
pub open spec fn decodes<T, E, D: FnOnce(serde_json::Value) -> Result<T, serde_json::Error>>(
    value: serde_json::Value,
    typename: &'static str,
    decode: D,
    outcome: Result<T, ApiError<E>>,
) -> bool {
    match outcome {
        Ok(decoded) => call_ensures(decode, (value,), Ok::<T, serde_json::Error>(decoded)),
        Err(ApiError::DataType { source, typename: name }) => name == typename && call_ensures(
            decode,
            (value,),
            Err::<T, serde_json::Error>(source),
        ),
        Err(_) => false,
    }
}

/// Whether `outcome` is the result of a query whose answer had the given
/// status and a body that parsed as `parsed`.
///
/// A body that is no JSON gives `Json`, whatever the status. A failing
/// status gives the error that the service reports. A succeeding status
/// gives what the decoder makes of the body.
pub open spec fn settles<T, E, D: FnOnce(serde_json::Value) -> Result<T, serde_json::Error>>(
    status: u16,
    parsed: Result<serde_json::Value, serde_json::Error>,
    typename: &'static str,
    decode: D,
    outcome: Result<T, ApiError<E>>,
) -> bool {
    match parsed {
        Ok(value) if success(status) => decodes(value, typename, decode, outcome),
        _ => outcome matches Err(error) && fails_as(parsed, error),
    }
}

/// Settles a query from the status of the answer and its parsed body.
pub fn outcome_of<T, E, D: FnOnce(serde_json::Value) -> Result<T, serde_json::Error>>(
    status: u16,
    parsed: Result<serde_json::Value, serde_json::Error>,
    typename: &'static str,
    decode: D,
) -> (outcome: Result<T, ApiError<E>>)
    requires
        forall|value: serde_json::Value| call_requires(decode, (value,)),
    ensures
        settles(status, parsed, typename, decode, outcome),
{
    match parsed {
        Ok(value) if 200 <= status && status < 300 => {
            match decode(value) {
                Ok(decoded) => Ok(decoded),
                Err(source) => Err(ApiError::data_type(source, typename)),
            }
        },
        other => Err(failure_of(other)),
    }
}

/// Whether `outcome` is the result of a query that was answered with the
/// given status and body.
pub open spec fn reads<T, E, D: FnOnce(serde_json::Value) -> Result<T, serde_json::Error>>(
    status: u16,
    body: Seq<u8>,
    typename: &'static str,
    decode: D,
    outcome: Result<T, ApiError<E>>,
) -> bool {
    match parsed_json(body) {
        None => outcome matches Err(ApiError::Json { .. }),
        Some(content) => if success(status) {
            exists|value: serde_json::Value| #[trigger]
                json_view(value) == content && decodes(value, typename, decode, outcome)
        } else {
            outcome matches Err(error) && stands_for(content, error)
        },
    }
}

/// Reads the answer to a query: parses the body as JSON, then settles the
/// query from the status and the parsed body. An answer without a body is
/// no JSON, so it ends in `Json` whatever its status, never in `DataType`.
pub fn decode_response<T, E, D: FnOnce(serde_json::Value) -> Result<T, serde_json::Error>>(
    response: &Response,
    typename: &'static str,
    decode: D,
) -> (outcome: Result<T, ApiError<E>>)
    requires
        forall|value: serde_json::Value| call_requires(decode, (value,)),
    ensures
        reads(response.status, response.body@, typename, decode, outcome),
        response.body@.len() == 0 ==> outcome matches Err(ApiError::Json { .. }),
{
    let parsed = parse(response.body.as_slice());
    outcome_of(response.status, parsed, typename, decode)
}

/// Whether `outcome` is the result of a query that ignores the data of its
/// answer: success for a succeeding status, whatever the body, and for a
/// failing status the error that the body stands for.
pub open spec fn checks<E>(status: u16, body: Seq<u8>, outcome: Result<(), ApiError<E>>) -> bool {
    if success(status) {
        outcome is Ok
    } else {
        match parsed_json(body) {
            None => outcome matches Err(ApiError::Json { .. }),
            Some(content) => outcome matches Err(error) && stands_for(content, error),
        }
    }
}

/// Reads the answer to a query that ignores the data: the body is parsed
/// only where the status reports a failure. A failure without a body ends
/// in `Json`.
pub fn check_response<E>(response: &Response) -> (outcome: Result<(), ApiError<E>>)
    ensures
        checks(response.status, response.body@, outcome),
        !success(response.status) && response.body@.len() == 0 ==> outcome matches Err(
            ApiError::Json { .. },
        ),
{
    if response.is_success() {
        Ok(())
    } else {
        Err(failure_of(parse(response.body.as_slice())))
    }
}

} // verus!
