//! A unifying client library for hosted large-language-model chat APIs.
//!
//! The verified core covers the provider-agnostic request builder, the
//! incremental server-sent-events stream decoder, the response envelope
//! extractor, the HTTP status classifier, and the structured OHLCV
//! extraction and validation layer.  The providers' modules add their model
//! registries, error taxonomies and client cores; the HTTP transport itself
//! lives outside the library and works from the prepared requests and typed
//! outcomes defined here.

pub mod aliyun;
pub mod bytes;
pub mod deepseek;
pub mod extract;
pub mod json;
pub mod num;
pub mod ohlcv;
pub mod request;
pub mod sse;
pub mod transport;
pub mod types;
