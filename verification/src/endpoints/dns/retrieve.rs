//! The endpoint that lists the records of a domain.

use std::borrow::Cow;
use vstd::prelude::*;
use vstd::string::StringExecFns;

use crate::api::client::Method;
use crate::api::endpoint::{relative, Endpoint};
use crate::api::params::{copy, text};
use crate::endpoints::builder::BuilderError;

verus! {

/// Retrieve the records of `domain`.
#[derive(Debug)]
pub struct RetrieveDns<'a> {
    domain: Cow<'a, str>,
}

/// The builder of a `RetrieveDns`.
#[derive(Debug)]
pub struct RetrieveDnsBuilder<'a> {
    domain: Option<Cow<'a, str>>,
}

impl<'a> Default for RetrieveDnsBuilder<'a> {
    fn default() -> (builder: Self)
        ensures
            builder.domain_set() is None,
    {
        RetrieveDnsBuilder { domain: None }
    }
}

impl<'a> RetrieveDnsBuilder<'a> {
    /// The domain that was set, if any.
    pub closed spec fn domain_set(&self) -> Option<Seq<char>> {
        match self.domain {
            Some(domain) => Some(domain@),
            None => None,
        }
    }

    /// Sets the domain whose records are asked for.
    pub fn domain(&mut self, value: &'a str) -> (same: &mut Self)
        ensures
            same.domain_set() == Some(value@),
            *final(self) == *final(same),
    {
        self.domain = Some(Cow::Borrowed(value));
        self
    }

    /// Builds the endpoint, or names the field that was never set.
    pub fn build(&self) -> (built: Result<RetrieveDns<'a>, BuilderError>)
        ensures
            match self.domain_set() {
                Some(domain) => built matches Ok(endpoint) && endpoint.domain() == domain,
                None => built matches Err(error) && error.field() == "domain"@,
            },
    {
        match &self.domain {
            Some(domain) => Ok(RetrieveDns { domain: copy(domain) }),
            None => Err(BuilderError::UninitializedField("domain")),
        }
    }
}

impl<'a> RetrieveDns<'a> {
    /// The domain whose records are asked for.
    pub closed spec fn domain(&self) -> Seq<char> {
        self.domain@
    }

    /// Create a builder for the endpoint.
    pub fn builder() -> (builder: RetrieveDnsBuilder<'a>)
        ensures
            builder.domain_set() is None,
    {
        RetrieveDnsBuilder::default()
    }
}

impl<'a> Endpoint for RetrieveDns<'a> {
    fn method(&self) -> (method: Method)
        ensures
            method == Method::Post,
    {
        Method::Post
    }

    fn endpoint(&self) -> (path: Cow<'static, str>)
        ensures
            path@ == "dns/retrieve/"@ + self.domain(),
            relative(path@),
    {
        proof {
            reveal_strlit("dns/retrieve/");
        }
        let mut path = String::from_str("dns/retrieve/");
        path.append(text(&self.domain));
        Cow::Owned(path)
    }
}

} // verus!
