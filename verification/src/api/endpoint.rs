//! What an endpoint is, and the query that sends one through a client and
//! decodes the answer.

use std::borrow::Cow;
use vstd::prelude::*;

use crate::api::client::{Client, Method, Request, Response};
use crate::api::error::ApiError;
use crate::api::params::QueryParams;
use crate::api::query::{asks, decode_response, reads, request_for};
use crate::address::Pair;
use crate::json::{new_object, object_members, Members, Object};

verus! {

/// Whether a path is relative: it does not begin with a slash, so that it
/// is read below the base URL of the service and not from its root.
pub open spec fn relative(path: Seq<char>) -> bool {
    path.len() == 0 || path[0] != '/'
}

/// A trait for providing the necessary information for a single REST API
/// endpoint.
pub trait Endpoint {
    /// The HTTP method to use for the endpoint.
    fn method(&self) -> Method;

    /// The path to the endpoint, relative to the client's base URL: it does
    /// not begin with a slash.
    fn endpoint(&self) -> Cow<'static, str>;

    /// Query parameters for the endpoint, in the order in which they are to
    /// stand in the URL. An endpoint that says nothing else has none.
    fn parameters(&self) -> (parameters: QueryParams<'_>)
        default_ensures
            parameters@ == Seq::<Pair>::empty(),
    {
        QueryParams::default()
    }

    /// The body fields for the endpoint. An endpoint that says nothing else
    /// has none.
    fn body(&self) -> (body: Object)
        default_ensures
            object_members(body) == Members::empty(),
    {
        new_object()
    }
}

/// Whether `outcome` is what the client's answer to a request settles a
/// query as: the client's own error, or what `reads` makes of the response.
pub open spec fn carried<T, E, D: FnOnce(serde_json::Value) -> Result<T, serde_json::Error>>(
    answer: Result<Response, ApiError<E>>,
    typename: &'static str,
    decode: D,
    outcome: Result<T, ApiError<E>>,
) -> bool {
    match answer {
        Err(error) => outcome matches Err(e) && e == error,
        Ok(response) => reads(response.status, response.body@, typename, decode, outcome),
    }
}

/// Whether `outcome` is a result of the query of `endpoint` against
/// `client`.
///
/// The steps are taken in order, and the first that fails ends the query
/// with its error: the request is made as `asks` says, the client carries
/// it, and the response is read as `reads` says.
pub open spec fn queried<E, C, T, D>(
    endpoint: &E,
    client: &C,
    typename: &'static str,
    decode: D,
    outcome: Result<T, ApiError<C::Error>>,
) -> bool where
    E: Endpoint,
    C: Client,
    D: FnOnce(serde_json::Value) -> Result<T, serde_json::Error>,
 {
    exists|assembled: Result<(Request, Vec<u8>), ApiError<C::Error>>|
        {
            &&& #[trigger] asks(endpoint, client, assembled)
            &&& match assembled {
                Err(error) => outcome matches Err(e) && e == error,
                Ok((request, data)) => exists|answer: Result<Response, ApiError<C::Error>>|
                    {
                        &&& #[trigger] call_ensures(C::rest, (client, request, data), answer)
                        &&& carried(answer, typename, decode, outcome)
                    },
            }
        }
}

/// Perform the query of `endpoint` against `client`, and decode the data of
/// the answer with `decode`. `typename` names the type that `decode` gives:
/// a `DataType` error carries it.
pub fn query<E, C, T, D>(endpoint: &E, client: &C, typename: &'static str, decode: D) -> (outcome:
    Result<T, ApiError<C::Error>>) where
    E: Endpoint,
    C: Client,
    D: FnOnce(serde_json::Value) -> Result<T, serde_json::Error>,

    requires
        forall|value: serde_json::Value| call_requires(decode, (value,)),
    ensures
        queried(endpoint, client, typename, decode, outcome),
{
    match request_for(endpoint, client) {
        Err(error) => Err(error),
        Ok((request, data)) => match client.rest(request, data) {
            Err(error) => Err(error),
            Ok(response) => decode_response(&response, typename, decode),
        },
    }
}

} // verus!
