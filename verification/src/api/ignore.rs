//! A query that ignores the data of the answer.

use vstd::prelude::*;

use crate::api::client::{Client, Request, Response};
use crate::api::endpoint::Endpoint;
use crate::api::error::ApiError;
use crate::api::query::{asks, check_response, checks, request_for};

verus! {

/// A query modifier that ignores the data returned from an endpoint.
#[derive(Debug, Clone, Copy, PartialEq, Eq)]
pub struct Ignore<E> {
    endpoint: E,
}

impl<E> Ignore<E> {
    /// The endpoint whose data is ignored.
    pub closed spec fn inner(&self) -> E {
        self.endpoint
    }

    /// The endpoint whose data is ignored.
    pub fn endpoint(&self) -> (endpoint: &E)
        ensures
            *endpoint == self.inner(),
    {
        &self.endpoint
    }
}

/// Ignore the resulting data from an endpoint.
pub fn ignore<E>(endpoint: E) -> (ignored: Ignore<E>)
    ensures
        ignored.inner() == endpoint,
{
    Ignore { endpoint }
}

/// Whether `outcome` is what the client's answer to a request settles a
/// query as, where the data of the answer is ignored: the client's own
/// error, or what `checks` makes of the response.
pub open spec fn carried_unread<E>(
    answer: Result<Response, ApiError<E>>,
    outcome: Result<(), ApiError<E>>,
) -> bool {
    match answer {
        Err(error) => outcome matches Err(e) && e == error,
        Ok(response) => checks(response.status, response.body@, outcome),
    }
}

/// Whether `outcome` is a result of the query of `endpoint` against `client`
/// where the data of the answer is ignored. The request is the one of the
/// plain query; the response is read as `checks` says.
pub open spec fn queried_unread<E: Endpoint, C: Client>(
    endpoint: &E,
    client: &C,
    outcome: Result<(), ApiError<C::Error>>,
) -> bool {
    exists|assembled: Result<(Request, Vec<u8>), ApiError<C::Error>>|
        {
            &&& #[trigger] asks(endpoint, client, assembled)
            &&& match assembled {
                Err(error) => outcome matches Err(e) && e == error,
                Ok((request, data)) => exists|answer: Result<Response, ApiError<C::Error>>|
                    {
                        &&& #[trigger] call_ensures(C::rest, (client, request, data), answer)
                        &&& carried_unread(answer, outcome)
                    },
            }
        }
}

impl<E: Endpoint> Ignore<E> {
    /// Perform the query against the client, and ignore the data of the
    /// answer: a succeeding status is success, whatever the body holds.
    pub fn query<C: Client>(&self, client: &C) -> (outcome: Result<(), ApiError<C::Error>>)
        ensures
            queried_unread(&self.inner(), client, outcome),
    {
        match request_for(&self.endpoint, client) {
            Err(error) => Err(error),
            Ok((request, data)) => match client.rest(request, data) {
                Err(error) => Err(error),
                Ok(response) => check_response(&response),
            },
        }
    }
}

} // verus!
