//! The two ways a forwarded call can fail.

use vstd::prelude::*;

verus! {

/// Declares the error of hyper-util's client.
#[verifier::external_type_specification]
#[verifier::external_body]
pub struct ExRequestError(hyper_util::client::legacy::Error);

/// Why a forwarded call produced no backend response.
#[derive(Debug)]
pub enum ProxyError {
    /// The rewritten URI is not a valid URI; nothing was sent.
    InvalidUri(http::Error),
    /// The client failed to obtain a response from the backend.
    RequestFailed(hyper_util::client::legacy::Error),
}

/// The text that the `Display` impl of `http::Error` writes for `e`.
pub uninterp spec fn http_error_text(e: http::Error) -> Seq<char>;

/// The text that the `Display` impl of hyper-util's client error writes for
/// `e`.
pub uninterp spec fn request_error_text(e: hyper_util::client::legacy::Error) -> Seq<char>;

/// Relies on the `Display` impl of `http::Error`, whose text depends on the
/// error alone.
#[verifier::external_body]
fn describe_http_error(e: &http::Error) -> (r: String)
    ensures
        r@ == http_error_text(*e),
{
    e.to_string()
}

/// Relies on the `Display` impl of hyper-util's client error, whose text
/// depends on the error alone.
#[verifier::external_body]
fn describe_request_error(e: &hyper_util::client::legacy::Error) -> (r: String)
    ensures
        r@ == request_error_text(*e),
{
    e.to_string()
}

impl ProxyError {
    /// The HTTP status that answers for this error where a host needs a
    /// response: 500, Internal Server Error, with an empty body.
    pub fn status_code(&self) -> (r: u16)
        ensures
            r == 500,
    {
        500
    }

    /// A one-line description: the kind of failure, then the cause.
    pub fn message(&self) -> (r: String)
        ensures
            r@ == match self {
                ProxyError::InvalidUri(e) => "Invalid uri: "@ + http_error_text(*e),
                ProxyError::RequestFailed(e) => "Request failed: "@ + request_error_text(*e),
            },
    {
        match self {
            ProxyError::InvalidUri(e) => {
                let mut r = String::from_str("Invalid uri: ");
                let d = describe_http_error(e);
                r.append(d.as_str());
                r
            },
            ProxyError::RequestFailed(e) => {
                let mut r = String::from_str("Request failed: ");
                let d = describe_request_error(e);
                r.append(d.as_str());
                r
            },
        }
    }
}

} // verus!
