//! The endpoints that manage the DNS records of a domain.

pub mod create;
pub mod delete;
pub mod edit;
pub mod retrieve;

pub use self::create::CreateDns;
pub use self::create::CreateDnsBuilder;
pub use self::delete::DeleteDns;
pub use self::delete::DeleteDnsBuilder;
pub use self::edit::EditDns;
pub use self::edit::EditDnsBuilder;
pub use self::retrieve::RetrieveDns;
pub use self::retrieve::RetrieveDnsBuilder;

use vstd::prelude::*;
use vstd::string::StringExecFns;

use crate::api::params::{decimal, decimal_text};
use crate::json::{insert_member, object_members, string_value, Json, Members, Object};

verus! {

/// The content of a DNS record, by the type of the record.
#[allow(inconsistent_fields)]
#[derive(Debug)]
pub enum DnsContent {
    /// A name server.
    Ns {
        /// The host name of the server.
        content: String,
    },
    /// An IPv4 address.
    A {
        /// The four octets of the address, the first one first.
        content: [u8; 4],
    },
    /// Free text.
    Txt {
        /// The text.
        content: String,
    },
    /// A certification authority authorization.
    Caa {
        /// Flags, tag and value.
        content: String,
    },
    /// A TLSA certificate association.
    Tlsa {
        /// Usage, selector, matching type and data.
        content: String,
    },
    /// An alias.
    Cname {
        /// The name that the alias stands for.
        content: String,
    },
    /// An IPv6 address.
    Aaaa {
        /// The address in its text form, such as `2001:db8::1`.
        content: String,
    },
    /// A mail exchange.
    Mx {
        /// The host name of the mail server.
        content: String,
        /// The priority of the server: lower comes first.
        priority: u16,
    },
    /// The location of a service.
    Srv {
        /// Weight, port and target.
        content: String,
        /// The priority of the target: lower comes first.
        priority: u16,
    },
}

/// The text form of an IPv4 address: its four octets as decimal numerals
/// with dots between them.
pub open spec fn dotted(octets: Seq<u8>) -> Seq<char> {
    decimal(octets[0] as nat) + "."@ + decimal(octets[1] as nat) + "."@ + decimal(
        octets[2] as nat,
    ) + "."@ + decimal(octets[3] as nat)
}

/// Writes an IPv4 address in its text form.
pub fn dotted_text(octets: &[u8; 4]) -> (written: String)
    ensures
        written@ == dotted(octets@),
{
    let mut written = decimal_text(octets[0] as u64);
    written.append(".");
    written.append(decimal_text(octets[1] as u64).as_str());
    written.append(".");
    written.append(decimal_text(octets[2] as u64).as_str());
    written.append(".");
    written.append(decimal_text(octets[3] as u64).as_str());
    written
}

impl DnsContent {
    /// The tag of the record's type, as the service spells it.
    pub open spec fn kind(&self) -> Seq<char> {
        match self {
            DnsContent::Ns { .. } => "NS"@,
            DnsContent::A { .. } => "A"@,
            DnsContent::Txt { .. } => "TXT"@,
            DnsContent::Caa { .. } => "CAA"@,
            DnsContent::Tlsa { .. } => "TLSA"@,
            DnsContent::Cname { .. } => "CNAME"@,
            DnsContent::Aaaa { .. } => "AAAA"@,
            DnsContent::Mx { .. } => "MX"@,
            DnsContent::Srv { .. } => "SRV"@,
        }
    }

    /// The content of the record as text.
    pub open spec fn content(&self) -> Seq<char> {
        match self {
            DnsContent::Ns { content } => content@,
            DnsContent::A { content } => dotted(content@),
            DnsContent::Txt { content } => content@,
            DnsContent::Caa { content } => content@,
            DnsContent::Tlsa { content } => content@,
            DnsContent::Cname { content } => content@,
            DnsContent::Aaaa { content } => content@,
            DnsContent::Mx { content, .. } => content@,
            DnsContent::Srv { content, .. } => content@,
        }
    }

    /// The priority of the record, for the types that have one.
    pub open spec fn priority(&self) -> Option<u16> {
        match self {
            DnsContent::Mx { priority, .. } => Some(*priority),
            DnsContent::Srv { priority, .. } => Some(*priority),
            _ => None,
        }
    }

    /// A record of the same type with the same content.
    pub fn duplicate(&self) -> (same: Self)
        ensures
            same.kind() == self.kind(),
            same.content() == self.content(),
            same.priority() == self.priority(),
    {
        match self {
            DnsContent::Ns { content } => DnsContent::Ns { content: content.clone() },
            DnsContent::A { content } => DnsContent::A { content: *content },
            DnsContent::Txt { content } => DnsContent::Txt { content: content.clone() },
            DnsContent::Caa { content } => DnsContent::Caa { content: content.clone() },
            DnsContent::Tlsa { content } => DnsContent::Tlsa { content: content.clone() },
            DnsContent::Cname { content } => DnsContent::Cname { content: content.clone() },
            DnsContent::Aaaa { content } => DnsContent::Aaaa { content: content.clone() },
            DnsContent::Mx { content, priority } => DnsContent::Mx {
                content: content.clone(),
                priority: *priority,
            },
            DnsContent::Srv { content, priority } => DnsContent::Srv {
                content: content.clone(),
                priority: *priority,
            },
        }
    }
}

/// The members of a body once a record is written into it: `type` holds the
/// tag of the record's type, `content` its content, and `prio` its priority
/// as a decimal numeral where it has one. All three are JSON strings, and
/// they replace members of the same names.
pub open spec fn with_record(members: Members, record: DnsContent) -> Members {
    let typed = members.insert("type"@, Json::Text(record.kind()));
    let ranked = match record.priority() {
        Some(priority) => typed.insert("prio"@, Json::Text(decimal(priority as nat))),
        None => typed,
    };
    ranked.insert("content"@, Json::Text(record.content()))
}

/// Sets the member `name` of `body` to the JSON string `value`.
pub(crate) fn set_text(body: &mut Object, name: &str, value: String)
    ensures
        object_members(*final(body)) == object_members(*old(body)).insert(
            name@,
            Json::Text(value@),
        ),
{
    insert_member(body, String::from_str(name), string_value(value));
}

/// Writes a record into the body of a request.
pub fn fill_body_with_record(body: &mut Object, record: &DnsContent)
    ensures
        object_members(*final(body)) == with_record(object_members(*old(body)), *record),
{
    match record {
        DnsContent::Ns { content } => {
            set_text(body, "type", String::from_str("NS"));
            set_text(body, "content", content.clone());
        },
        DnsContent::A { content } => {
            set_text(body, "type", String::from_str("A"));
            set_text(body, "content", dotted_text(content));
        },
        DnsContent::Txt { content } => {
            set_text(body, "type", String::from_str("TXT"));
            set_text(body, "content", content.clone());
        },
        DnsContent::Caa { content } => {
            set_text(body, "type", String::from_str("CAA"));
            set_text(body, "content", content.clone());
        },
        DnsContent::Tlsa { content } => {
            set_text(body, "type", String::from_str("TLSA"));
            set_text(body, "content", content.clone());
        },
        DnsContent::Cname { content } => {
            set_text(body, "type", String::from_str("CNAME"));
            set_text(body, "content", content.clone());
        },
        DnsContent::Aaaa { content } => {
            set_text(body, "type", String::from_str("AAAA"));
            set_text(body, "content", content.clone());
        },
        DnsContent::Mx { content, priority } => {
            set_text(body, "type", String::from_str("MX"));
            set_text(body, "prio", decimal_text(*priority as u64));
            set_text(body, "content", content.clone());
        },
        DnsContent::Srv { content, priority } => {
            set_text(body, "type", String::from_str("SRV"));
            set_text(body, "prio", decimal_text(*priority as u64));
            set_text(body, "content", content.clone());
        },
    };
}

} // verus!
