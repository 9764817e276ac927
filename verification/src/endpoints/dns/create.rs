//! The endpoint that creates a record.

use std::borrow::Cow;
use vstd::prelude::*;
use vstd::string::StringExecFns;

use crate::api::client::Method;
use crate::api::endpoint::{relative, Endpoint};
use crate::api::params::{copy, decimal, decimal_text, text};
use crate::endpoints::builder::BuilderError;
use crate::endpoints::dns::{fill_body_with_record, set_text, with_record, DnsContent};
use crate::json::{new_object, object_members, Json, Members, Object};

verus! {

/// Create a record in `domain`.
#[derive(Debug)]
pub struct CreateDns<'a> {
    record: DnsContent,
    domain: Cow<'a, str>,
    ttl: Option<u32>,
    name: Option<Cow<'a, str>>,
}

/// The builder of a `CreateDns`.
#[derive(Debug)]
pub struct CreateDnsBuilder<'a> {
    record: Option<DnsContent>,
    domain: Option<Cow<'a, str>>,
    ttl: Option<u32>,
    name: Option<Cow<'a, str>>,
}

/// The text of an optional string.
pub open spec fn maybe_text(value: Option<Cow<'_, str>>) -> Option<Seq<char>> {
    match value {
        Some(text) => Some(text@),
        None => None,
    }
}

/// The members of the body that describes a record: `name` holds the
/// subdomain and `ttl` the time to live as a decimal numeral, each where it
/// is given, and the record is written as `with_record` says.
pub open spec fn record_members(name: Option<Seq<char>>, ttl: Option<u32>, record: DnsContent) -> Members {
    let named = match name {
        Some(name) => Members::empty().insert("name"@, Json::Text(name)),
        None => Members::empty(),
    };
    let timed = match ttl {
        Some(ttl) => named.insert("ttl"@, Json::Text(decimal(ttl as nat))),
        None => named,
    };
    with_record(timed, record)
}

/// The body that describes a record has no member under the two names that
/// carry the credentials of a request.
pub proof fn record_leaves_credentials(name: Option<Seq<char>>, ttl: Option<u32>, record: DnsContent)
    ensures
        !record_members(name, ttl, record).contains_key("apikey"@),
        !record_members(name, ttl, record).contains_key("secretapikey"@),
{
    reveal_strlit("apikey");
    reveal_strlit("secretapikey");
    reveal_strlit("name");
    reveal_strlit("ttl");
    reveal_strlit("type");
    reveal_strlit("prio");
    reveal_strlit("content");
    assert("name"@.len() == 4);
    assert("ttl"@.len() == 3);
    assert("type"@.len() == 4);
    assert("prio"@.len() == 4);
    assert("content"@.len() == 7);
}

/// Builds the body that describes a record.
pub(crate) fn record_body(name: &Option<Cow<'_, str>>, ttl: Option<u32>, record: &DnsContent) -> (body: Object)
    ensures
        object_members(body) == record_members(maybe_text(*name), ttl, *record),
{
    let mut body = new_object();
    if let Some(name) = name {
        set_text(&mut body, "name", String::from_str(text(name)));
    }
    if let Some(ttl) = ttl {
        set_text(&mut body, "ttl", decimal_text(ttl as u64));
    }
    fill_body_with_record(&mut body, record);
    body
}

impl<'a> Default for CreateDnsBuilder<'a> {
    fn default() -> (builder: Self)
        ensures
            builder.record_set() is None,
            builder.domain_set() is None,
            builder.ttl_set() is None,
            builder.name_set() is None,
    {
        CreateDnsBuilder { record: None, domain: None, ttl: None, name: None }
    }
}

impl<'a> CreateDnsBuilder<'a> {
    /// The record that was set, if any.
    pub closed spec fn record_set(&self) -> Option<DnsContent> {
        self.record
    }

    /// The domain that was set, if any.
    pub closed spec fn domain_set(&self) -> Option<Seq<char>> {
        maybe_text(self.domain)
    }

    /// The time to live that was set, if any.
    pub closed spec fn ttl_set(&self) -> Option<u32> {
        self.ttl
    }

    /// The subdomain that was set, if any.
    pub closed spec fn name_set(&self) -> Option<Seq<char>> {
        maybe_text(self.name)
    }

    /// Sets the record to create.
    pub fn record(&mut self, value: DnsContent) -> (same: &mut Self)
        ensures
            same.record_set() == Some(value),
            same.domain_set() == old(self).domain_set(),
            same.ttl_set() == old(self).ttl_set(),
            same.name_set() == old(self).name_set(),
            *final(self) == *final(same),
    {
        self.record = Some(value);
        self
    }

    /// Sets the domain to create the record in.
    pub fn domain(&mut self, value: &'a str) -> (same: &mut Self)
        ensures
            same.record_set() == old(self).record_set(),
            same.domain_set() == Some(value@),
            same.ttl_set() == old(self).ttl_set(),
            same.name_set() == old(self).name_set(),
            *final(self) == *final(same),
    {
        self.domain = Some(Cow::Borrowed(value));
        self
    }

    /// Sets the time to live of the record, in seconds.
    pub fn ttl(&mut self, value: u32) -> (same: &mut Self)
        ensures
            same.record_set() == old(self).record_set(),
            same.domain_set() == old(self).domain_set(),
            same.ttl_set() == Some(value),
            same.name_set() == old(self).name_set(),
            *final(self) == *final(same),
    {
        self.ttl = Some(value);
        self
    }

    /// Sets the subdomain of the record.
    pub fn name(&mut self, value: &'a str) -> (same: &mut Self)
        ensures
            same.record_set() == old(self).record_set(),
            same.domain_set() == old(self).domain_set(),
            same.ttl_set() == old(self).ttl_set(),
            same.name_set() == Some(value@),
            *final(self) == *final(same),
    {
        self.name = Some(Cow::Borrowed(value));
        self
    }

    /// Builds the endpoint, or names the first field that was never set:
    /// `record` before `domain`. Time to live and subdomain may stay unset.
    pub fn build(&self) -> (built: Result<CreateDns<'a>, BuilderError>)
        ensures
            match (self.record_set(), self.domain_set()) {
                (Some(record), Some(domain)) => {
                    &&& built matches Ok(endpoint)
                    &&& endpoint.selects(record)
                    &&& endpoint.domain() == domain
                    &&& endpoint.ttl() == self.ttl_set()
                    &&& endpoint.name() == self.name_set()
                },
                (Some(_), None) => built matches Err(error) && error.field() == "domain"@,
                (None, _) => built matches Err(error) && error.field() == "record"@,
            },
    {
        let record = match &self.record {
            Some(record) => record.duplicate(),
            None => return Err(BuilderError::UninitializedField("record")),
        };
        let domain = match &self.domain {
            Some(domain) => copy(domain),
            None => return Err(BuilderError::UninitializedField("domain")),
        };
        let name = match &self.name {
            Some(name) => Some(copy(name)),
            None => None,
        };
        Ok(CreateDns { record, domain, ttl: self.ttl, name })
    }
}

impl<'a> CreateDns<'a> {
    /// The record to create.
    pub closed spec fn record(&self) -> DnsContent {
        self.record
    }

    /// Whether the record to create has the type, content and priority of
    /// `record`.
    pub open spec fn selects(&self, record: DnsContent) -> bool {
        &&& self.record().kind() == record.kind()
        &&& self.record().content() == record.content()
        &&& self.record().priority() == record.priority()
    }

    /// The domain to create the record in.
    pub closed spec fn domain(&self) -> Seq<char> {
        self.domain@
    }

    /// The time to live of the record, where one is given.
    pub closed spec fn ttl(&self) -> Option<u32> {
        self.ttl
    }

    /// The subdomain of the record, where one is given.
    pub closed spec fn name(&self) -> Option<Seq<char>> {
        maybe_text(self.name)
    }

    /// Create a builder for the endpoint.
    pub fn builder() -> (builder: CreateDnsBuilder<'a>)
        ensures
            builder.record_set() is None,
            builder.domain_set() is None,
            builder.ttl_set() is None,
            builder.name_set() is None,
    {
        CreateDnsBuilder::default()
    }
}

impl<'a> Endpoint for CreateDns<'a> {
    fn method(&self) -> (method: Method)
        ensures
            method == Method::Post,
    {
        Method::Post
    }

    fn endpoint(&self) -> (path: Cow<'static, str>)
        ensures
            path@ == "dns/create/"@ + self.domain(),
            relative(path@),
    {
        proof {
            reveal_strlit("dns/create/");
        }
        let mut path = String::from_str("dns/create/");
        path.append(text(&self.domain));
        Cow::Owned(path)
    }

    fn body(&self) -> (body: Object)
        ensures
            object_members(body) == record_members(self.name(), self.ttl(), self.record()),
    {
        record_body(&self.name, self.ttl, &self.record)
    }
}

} // verus!
