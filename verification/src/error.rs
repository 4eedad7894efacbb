//! The error taxonomy every operation surfaces to its caller: transport,
//! decoding, classified API failures, and local validation.
use vstd::prelude::*;

verus! {

/// One error per failure category. A call either fully succeeds with a
/// decoded response or fails with exactly one of these.
#[derive(Debug, Clone)]
pub enum CufinderError {
    /// The transport could not complete the request.
    HttpError(String),
    /// The response body was not the JSON the operation's shape asks for.
    JsonError(String),
    /// A non-2xx status outside the classified ones, with its body text.
    ApiError { status: u16, message: String },
    /// A required parameter field was empty, or the parameters could not
    /// be encoded; the message names the field.
    ValidationError(String),
    /// HTTP 401: the credential was refused.
    AuthenticationError(String),
    /// HTTP 429: the caller is over the rate limit.
    RateLimitError(String),
    /// HTTP 402: the prepaid usage allowance is exhausted.
    CreditLimitError(String),
    /// The transport reached no endpoint at all.
    NetworkError(String),
    /// A failure no other category describes.
    UnknownError(String),
}

} // verus!
