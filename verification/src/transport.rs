//! Classification of HTTP responses into typed outcomes.
//!
//! The transport itself (the HTTP client) lives outside the verified core;
//! it hands the status code and, for failures, the body text to
//! `classify_status`.

use vstd::prelude::*;
use crate::bytes::seq_contains;

verus! {

/// Typed outcome of one HTTP exchange, before any provider-specific error
/// mapping.
#[derive(Clone, Copy, Debug, PartialEq, Eq, Structural)]
pub enum HttpOutcome {
    /// A 2xx status.
    Success,
    /// Status 429: provider backpressure.
    RateLimited,
    /// Status 401: the credential was rejected.
    Unauthenticated,
    /// Another non-2xx status whose body names the context-length marker.
    ContextLengthExceeded,
    /// Any other non-2xx status.
    RemoteError,
}

/// The marker string `context_length` that providers put in the body of an
/// over-long request.
pub open spec fn context_marker() -> Seq<u8> {
    seq![
        99u8,
        111u8,
        110u8,
        116u8,
        101u8,
        120u8,
        116u8,
        95u8,
        108u8,
        101u8,
        110u8,
        103u8,
        116u8,
        104u8,
    ]
}

/// Status classification, checked in priority order: 2xx is success, 429 is
/// rate limiting, 401 is an authentication failure, any other status is a
/// context-length failure when the body carries the marker and a generic
/// remote error otherwise.
pub open spec fn spec_classify(status: u16, body: Seq<u8>) -> HttpOutcome {
    if 200 <= status < 300 {
        HttpOutcome::Success
    } else if status == 429 {
        HttpOutcome::RateLimited
    } else if status == 401 {
        HttpOutcome::Unauthenticated
    } else if seq_contains(body, context_marker()) {
        HttpOutcome::ContextLengthExceeded
    } else {
        HttpOutcome::RemoteError
    }
}

/// Classifies one HTTP response; `body` is the body text of a failed
/// response (it is only inspected for non-2xx statuses).
pub fn classify_status(status: u16, body: &[u8]) -> (r: HttpOutcome)
    ensures
        r == spec_classify(status, body@),
{
    if 200 <= status && status < 300 {
        HttpOutcome::Success
    } else if status == 429 {
        HttpOutcome::RateLimited
    } else if status == 401 {
        HttpOutcome::Unauthenticated
    } else {
        let mut marker: Vec<u8> = Vec::new();
        marker.push(99);
        marker.push(111);
        marker.push(110);
        marker.push(116);
        marker.push(101);
        marker.push(120);
        marker.push(116);
        marker.push(95);
        marker.push(108);
        marker.push(101);
        marker.push(110);
        marker.push(103);
        marker.push(116);
        marker.push(104);
        proof {
            assert(marker@ =~= context_marker());
        }
        if crate::bytes::bytes_contains(body, marker.as_slice()) {
            HttpOutcome::ContextLengthExceeded
        } else {
            HttpOutcome::RemoteError
        }
    }
}

} // verus!
