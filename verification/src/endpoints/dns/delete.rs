//! The endpoint that removes one record.

use std::borrow::Cow;
use vstd::prelude::*;
use vstd::string::StringExecFns;

use crate::api::client::Method;
use crate::api::endpoint::{relative, Endpoint};
use crate::api::params::{copy, text};
use crate::endpoints::builder::BuilderError;

verus! {

/// Delete the record `id` of `domain`.
#[derive(Debug)]
pub struct DeleteDns<'a> {
    id: Cow<'a, str>,
    domain: Cow<'a, str>,
}

/// The builder of a `DeleteDns`.
#[derive(Debug)]
pub struct DeleteDnsBuilder<'a> {
    id: Option<Cow<'a, str>>,
    domain: Option<Cow<'a, str>>,
}

impl<'a> Default for DeleteDnsBuilder<'a> {
    fn default() -> (builder: Self)
        ensures
            builder.id_set() is None,
            builder.domain_set() is None,
    {
        DeleteDnsBuilder { id: None, domain: None }
    }
}

impl<'a> DeleteDnsBuilder<'a> {
    /// The identifier that was set, if any.
    pub closed spec fn id_set(&self) -> Option<Seq<char>> {
        match self.id {
            Some(id) => Some(id@),
            None => None,
        }
    }

    /// The domain that was set, if any.
    pub closed spec fn domain_set(&self) -> Option<Seq<char>> {
        match self.domain {
            Some(domain) => Some(domain@),
            None => None,
        }
    }

    /// Sets the identifier of the record.
    pub fn id(&mut self, value: &'a str) -> (same: &mut Self)
        ensures
            same.id_set() == Some(value@),
            same.domain_set() == old(self).domain_set(),
            *final(self) == *final(same),
    {
        self.id = Some(Cow::Borrowed(value));
        self
    }

    /// Sets the domain that the record belongs to.
    pub fn domain(&mut self, value: &'a str) -> (same: &mut Self)
        ensures
            same.id_set() == old(self).id_set(),
            same.domain_set() == Some(value@),
            *final(self) == *final(same),
    {
        self.domain = Some(Cow::Borrowed(value));
        self
    }

    /// Builds the endpoint, or names the first field that was never set:
    /// `id` before `domain`.
    pub fn build(&self) -> (built: Result<DeleteDns<'a>, BuilderError>)
        ensures
            match (self.id_set(), self.domain_set()) {
                (Some(id), Some(domain)) => built matches Ok(endpoint) && endpoint.id() == id
                    && endpoint.domain() == domain,
                (Some(_), None) => built matches Err(error) && error.field() == "domain"@,
                (None, _) => built matches Err(error) && error.field() == "id"@,
            },
    {
        let id = match &self.id {
            Some(id) => copy(id),
            None => return Err(BuilderError::UninitializedField("id")),
        };
        let domain = match &self.domain {
            Some(domain) => copy(domain),
            None => return Err(BuilderError::UninitializedField("domain")),
        };
        Ok(DeleteDns { id, domain })
    }
}

impl<'a> DeleteDns<'a> {
    /// The identifier of the record.
    pub closed spec fn id(&self) -> Seq<char> {
        self.id@
    }

    /// The domain that the record belongs to.
    pub closed spec fn domain(&self) -> Seq<char> {
        self.domain@
    }

    /// Create a builder for the endpoint.
    pub fn builder() -> (builder: DeleteDnsBuilder<'a>)
        ensures
            builder.id_set() is None,
            builder.domain_set() is None,
    {
        DeleteDnsBuilder::default()
    }
}

impl<'a> Endpoint for DeleteDns<'a> {
    fn method(&self) -> (method: Method)
        ensures
            method == Method::Post,
    {
        Method::Post
    }

    fn endpoint(&self) -> (path: Cow<'static, str>)
        ensures
            path@ == "dns/delete/"@ + self.domain() + "/"@ + self.id(),
            relative(path@),
    {
        proof {
            reveal_strlit("dns/delete/");
        }
        let mut path = String::from_str("dns/delete/");
        path.append(text(&self.domain));
        path.append("/");
        path.append(text(&self.id));
        Cow::Owned(path)
    }
}

} // verus!
