//! The endpoint that changes a record.

use std::borrow::Cow;
use vstd::prelude::*;
use vstd::string::StringExecFns;

use crate::api::client::Method;
use crate::api::endpoint::{relative, Endpoint};
use crate::api::params::{copy, text};
use crate::endpoints::builder::BuilderError;
use crate::endpoints::dns::create::{maybe_text, record_body, record_members};
use crate::endpoints::dns::DnsContent;
use crate::json::{object_members, Object};

verus! {

/// Change the record `id` of `domain`.
#[derive(Debug)]
pub struct EditDns<'a> {
    record: DnsContent,
    domain: Cow<'a, str>,
    id: Cow<'a, str>,
    ttl: Option<u32>,
    name: Option<Cow<'a, str>>,
}

/// The builder of an `EditDns`.
#[derive(Debug)]
pub struct EditDnsBuilder<'a> {
    record: Option<DnsContent>,
    domain: Option<Cow<'a, str>>,
    id: Option<Cow<'a, str>>,
    ttl: Option<u32>,
    name: Option<Cow<'a, str>>,
}

impl<'a> Default for EditDnsBuilder<'a> {
    fn default() -> (builder: Self)
        ensures
            builder.unset(),
    {
        EditDnsBuilder { record: None, domain: None, id: None, ttl: None, name: None }
    }
}

impl<'a> EditDnsBuilder<'a> {
    /// The record that was set, if any.
    pub closed spec fn record_set(&self) -> Option<DnsContent> {
        self.record
    }

    /// The domain that was set, if any.
    pub closed spec fn domain_set(&self) -> Option<Seq<char>> {
        maybe_text(self.domain)
    }

    /// The identifier that was set, if any.
    pub closed spec fn id_set(&self) -> Option<Seq<char>> {
        maybe_text(self.id)
    }

    /// The time to live that was set, if any.
    pub closed spec fn ttl_set(&self) -> Option<u32> {
        self.ttl
    }

    /// The subdomain that was set, if any.
    pub closed spec fn name_set(&self) -> Option<Seq<char>> {
        maybe_text(self.name)
    }

    /// Whether no field was set.
    pub open spec fn unset(&self) -> bool {
        &&& self.record_set() is None
        &&& self.domain_set() is None
        &&& self.id_set() is None
        &&& self.ttl_set() is None
        &&& self.name_set() is None
    }

    /// Sets the new content of the record.
    pub fn record(&mut self, value: DnsContent) -> (same: &mut Self)
        ensures
            same.record_set() == Some(value),
            same.domain_set() == old(self).domain_set(),
            same.id_set() == old(self).id_set(),
            same.ttl_set() == old(self).ttl_set(),
            same.name_set() == old(self).name_set(),
            *final(self) == *final(same),
    {
        self.record = Some(value);
        self
    }

    /// Sets the domain that the record belongs to.
    pub fn domain(&mut self, value: &'a str) -> (same: &mut Self)
        ensures
            same.record_set() == old(self).record_set(),
            same.domain_set() == Some(value@),
            same.id_set() == old(self).id_set(),
            same.ttl_set() == old(self).ttl_set(),
            same.name_set() == old(self).name_set(),
            *final(self) == *final(same),
    {
        self.domain = Some(Cow::Borrowed(value));
        self
    }

    /// Sets the identifier of the record.
    pub fn id(&mut self, value: &'a str) -> (same: &mut Self)
        ensures
            same.record_set() == old(self).record_set(),
            same.domain_set() == old(self).domain_set(),
            same.id_set() == Some(value@),
            same.ttl_set() == old(self).ttl_set(),
            same.name_set() == old(self).name_set(),
            *final(self) == *final(same),
    {
        self.id = Some(Cow::Borrowed(value));
        self
    }

    /// Sets the time to live of the record, in seconds.
    pub fn ttl(&mut self, value: u32) -> (same: &mut Self)
        ensures
            same.record_set() == old(self).record_set(),
            same.domain_set() == old(self).domain_set(),
            same.id_set() == old(self).id_set(),
            same.ttl_set() == Some(value),
            same.name_set() == old(self).name_set(),
            *final(self) == *final(same),
    {
        self.ttl = Some(value);
        self
    }

    /// Sets the subdomain of the record.
    pub fn name(&mut self, value: &'a str) -> (same: &mut Self)
        ensures
            same.record_set() == old(self).record_set(),
            same.domain_set() == old(self).domain_set(),
            same.id_set() == old(self).id_set(),
            same.ttl_set() == old(self).ttl_set(),
            same.name_set() == Some(value@),
            *final(self) == *final(same),
    {
        self.name = Some(Cow::Borrowed(value));
        self
    }

    /// Builds the endpoint, or names the first field that was never set:
    /// `record` before `domain` before `id`. Time to live and subdomain may
    /// stay unset.
    pub fn build(&self) -> (built: Result<EditDns<'a>, BuilderError>)
        ensures
            match (self.record_set(), self.domain_set(), self.id_set()) {
                (Some(record), Some(domain), Some(id)) => {
                    &&& built matches Ok(endpoint)
                    &&& endpoint.selects(record)
                    &&& endpoint.domain() == domain
                    &&& endpoint.id() == id
                    &&& endpoint.ttl() == self.ttl_set()
                    &&& endpoint.name() == self.name_set()
                },
                (Some(_), Some(_), None) => built matches Err(error) && error.field() == "id"@,
                (Some(_), None, _) => built matches Err(error) && error.field() == "domain"@,
                (None, _, _) => built matches Err(error) && error.field() == "record"@,
            },
    {
        let record = match &self.record {
            Some(record) => record.duplicate(),
            None => return Err(BuilderError::UninitializedField("record")),
        };
        let domain = match &self.domain {
            Some(domain) => copy(domain),
            None => return Err(BuilderError::UninitializedField("domain")),
        };
        let id = match &self.id {
            Some(id) => copy(id),
            None => return Err(BuilderError::UninitializedField("id")),
        };
        let name = match &self.name {
            Some(name) => Some(copy(name)),
            None => None,
        };
        Ok(EditDns { record, domain, id, ttl: self.ttl, name })
    }
}

impl<'a> EditDns<'a> {
    /// The new content of the record.
    pub closed spec fn record(&self) -> DnsContent {
        self.record
    }

    /// Whether the new content has the type, content and priority of
    /// `record`.
    pub open spec fn selects(&self, record: DnsContent) -> bool {
        &&& self.record().kind() == record.kind()
        &&& self.record().content() == record.content()
        &&& self.record().priority() == record.priority()
    }

    /// The domain that the record belongs to.
    pub closed spec fn domain(&self) -> Seq<char> {
        self.domain@
    }

    /// The identifier of the record.
    pub closed spec fn id(&self) -> Seq<char> {
        self.id@
    }

    /// The time to live of the record, where one is given.
    pub closed spec fn ttl(&self) -> Option<u32> {
        self.ttl
    }

    /// The subdomain of the record, where one is given.
    pub closed spec fn name(&self) -> Option<Seq<char>> {
        maybe_text(self.name)
    }

    /// Create a builder for the endpoint.
    pub fn builder() -> (builder: EditDnsBuilder<'a>)
        ensures
            builder.unset(),
    {
        EditDnsBuilder::default()
    }
}

impl<'a> Endpoint for EditDns<'a> {
    fn method(&self) -> (method: Method)
        ensures
            method == Method::Post,
    {
        Method::Post
    }

    fn endpoint(&self) -> (path: Cow<'static, str>)
        ensures
            path@ == "dns/edit/"@ + self.domain() + "/"@ + self.id(),
            relative(path@),
    {
        proof {
            reveal_strlit("dns/edit/");
        }
        let mut path = String::from_str("dns/edit/");
        path.append(text(&self.domain));
        path.append("/");
        path.append(text(&self.id));
        Cow::Owned(path)
    }

    fn body(&self) -> (body: Object)
        ensures
            object_members(body) == record_members(self.name(), self.ttl(), self.record()),
    {
        record_body(&self.name, self.ttl, &self.record)
    }
}

} // verus!
