//! A typed client for the Porkbun domain and DNS management API.
//!
//! The crate describes the endpoints of the service, turns an endpoint and
//! a client into an HTTP request, and turns the answer into a result or a
//! classified error. It does not open a connection itself: a [`api::Client`]
//! carries the request, and the crate is generic in it.
//!
//! - [`api`] holds the pipeline: parameter values and parameter lists, the
//!   traits of endpoints and clients, the assembly of a request, the reading
//!   of a response, and the errors.
//! - [`endpoints`] holds the endpoints of the service with their builders.
//! - [`auth`] holds the credentials of an account.
//! - [`types`] holds the shapes of the answers.
//! - [`json`] and [`address`] are the borders to `serde_json` and `url`:
//!   they declare the types of those crates and say what their functions are
//!   taken to do.
//!
//! Everything is verified with Verus but for the functions marked
//! `external_body` in [`json`], [`address`] and [`api::calendar`], each of
//! which wraps one call into another crate and states what is assumed of it.

pub mod address;
pub mod api;
pub mod auth;
pub mod endpoints;
pub mod json;
pub mod types;

pub use crate::types::CreateResponse;
pub use crate::types::DeleteResponse;
pub use crate::types::EditResponse;
pub use crate::types::PingResponse;
pub use crate::types::Record;
pub use crate::types::RetrieveResponse;
pub use crate::types::Status;
