//! The endpoint that checks that the service answers and that the
//! credentials are good.

use std::borrow::Cow;
use vstd::prelude::*;

use crate::api::client::Method;
use crate::api::endpoint::{relative, Endpoint};
use crate::endpoints::builder::BuilderError;

verus! {

/// Ask the service for a sign of life.
#[derive(Debug, Clone, Copy)]
pub struct Ping {}

/// The builder of a `Ping`.
#[derive(Debug, Clone, Copy)]
pub struct PingBuilder {}

impl Default for PingBuilder {
    fn default() -> Self {
        PingBuilder {  }
    }
}

impl PingBuilder {
    /// Builds the endpoint. It has no field that could be missing.
    pub fn build(&self) -> (built: Result<Ping, BuilderError>)
        ensures
            built is Ok,
    {
        Ok(Ping {  })
    }
}

impl Ping {
    /// Create a builder for the endpoint.
    pub fn builder() -> PingBuilder {
        PingBuilder::default()
    }
}

impl Endpoint for Ping {
    fn method(&self) -> (method: Method)
        ensures
            method == Method::Post,
    {
        Method::Post
    }

    fn endpoint(&self) -> (path: Cow<'static, str>)
        ensures
            path@ == "ping"@,
            relative(path@),
    {
        proof {
            reveal_strlit("ping");
        }
        Cow::Borrowed("ping")
    }
}

} // verus!
