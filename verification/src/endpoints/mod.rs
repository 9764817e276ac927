//! The endpoints of the service.

pub mod builder;
pub mod dns;
pub mod ping;

pub use self::builder::BuilderError;
pub use self::dns::CreateDns;
pub use self::dns::CreateDnsBuilder;
pub use self::dns::DeleteDns;
pub use self::dns::DeleteDnsBuilder;
pub use self::dns::DnsContent;
pub use self::dns::EditDns;
pub use self::dns::EditDnsBuilder;
pub use self::dns::RetrieveDns;
pub use self::dns::RetrieveDnsBuilder;
pub use self::ping::Ping;
pub use self::ping::PingBuilder;
