//! Error taxonomy of the Aliyun client.

use vstd::prelude::*;

verus! {

/// Everything an Aliyun call can fail with.
#[derive(Clone, Debug, PartialEq, Eq)]
pub enum AliyunAIError {
    /// The remote end answered with a non-2xx status.
    ApiError(String),
    /// The transport itself failed; retryable with backoff.
    NetworkError(String),
    /// A response or structured payload could not be understood.
    ParseError(String),
    /// Bad client setup; never retryable.
    ConfigError(String),
    /// The call took too long.
    TimeoutError(String),
    /// The model identifier has no registry entry.
    ModelNotSupported(String),
    /// Streaming was requested where it cannot be expressed.
    StreamingNotSupported,
}

} // verus!
