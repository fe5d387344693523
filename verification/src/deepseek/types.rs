//! Error taxonomy of the DeepSeek client.

use vstd::prelude::*;

verus! {

/// Everything a DeepSeek call can fail with.
#[derive(Clone, Debug, PartialEq, Eq)]
pub enum DeepSeekError {
    /// The remote end answered with a non-2xx status.
    ApiError(String),
    /// The transport itself failed; retryable with backoff.
    NetworkError(String),
    /// A response or structured payload could not be understood.
    ParseError(String),
    /// Bad client setup; never retryable.
    ConfigError(String),
    /// The call took too long.
    TimeoutError(String),
    /// The model identifier has no registry entry.
    ModelNotSupported(String),
    /// Streaming was requested where it cannot be expressed.
    StreamingNotSupported,
    /// Status 429: provider backpressure; retry after a delay.
    RateLimitError(String),
    /// Status 401: the credential was rejected.
    AuthError(String),
    /// The request exceeded the model's context length.
    ContextLengthError(String),
}

} // verus!
