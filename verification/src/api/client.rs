//! What a client is: it knows where the service lives and who is asking, and
//! it carries one request to the service and brings the answer back.

use vstd::prelude::*;

use crate::api::error::ApiError;
use crate::json::Object;

verus! {

/// The method of an HTTP request.
#[derive(Debug, Clone, Copy, PartialEq, Eq, Hash, Structural)]
pub enum Method {
    /// GET
    Get,
    /// POST
    Post,
    /// PUT
    Put,
    /// DELETE
    Delete,
    /// HEAD
    Head,
    /// OPTIONS
    Options,
    /// PATCH
    Patch,
}

/// A request that is ready to be sent, but for its body.
#[derive(Debug)]
pub struct Request {
    /// The method to use.
    pub method: Method,
    /// The absolute URL to send the request to.
    pub url: url::Url,
    /// The value of the `Content-Type` header, where the request has a body.
    pub content_type: Option<String>,
}

/// The answer to a request, as it came.
#[derive(Debug)]
pub struct Response {
    /// The HTTP status code.
    pub status: u16,
    /// The body, byte for byte.
    pub body: Vec<u8>,
}

/// Whether an HTTP status code reports success: the codes from 200 to 299 do.
pub open spec fn success(status: u16) -> bool {
    200 <= status < 300
}

impl Response {
    /// Whether the status code reports success.
    pub fn is_success(&self) -> (yes: bool)
        ensures
            yes == success(self.status),
    {
        200 <= self.status && self.status < 300
    }
}

/// A trait representing a client which can communicate with a Porkbun
/// instance.
pub trait Client {
    /// The errors which may occur for this client.
    type Error;

    /// Get the URL for the endpoint for the client.
    ///
    /// This method adds the hostname for the client's target instance.
    fn rest_endpoint(&self, endpoint: &str) -> Result<url::Url, ApiError<Self::Error>>;

    /// Send a REST query.
    fn rest(&self, request: Request, body: Vec<u8>) -> Result<Response, ApiError<Self::Error>>;

    /// The fields that tell the service who is asking. They go into the body
    /// of every request.
    fn auth(&self) -> Object;
}

} // verus!
