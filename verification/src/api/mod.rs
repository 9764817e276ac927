//! The pipeline that turns the description of an endpoint and a client into
//! a typed result or a classified error.

pub mod calendar;
pub mod client;
pub mod endpoint;
pub mod error;
pub mod ignore;
pub mod params;
pub mod query;

pub use self::calendar::Date;
pub use self::calendar::Timestamp;
pub use self::client::Client;
pub use self::client::Method;
pub use self::client::Request;
pub use self::client::Response;
pub use self::endpoint::query;
pub use self::endpoint::Endpoint;
pub use self::error::ApiError;
pub use self::error::BodyError;
pub use self::ignore::ignore;
pub use self::ignore::Ignore;
pub use self::params::BodyParams;
pub use self::params::ParamValue;
pub use self::params::QueryParams;
