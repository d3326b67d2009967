//! The bounded echo burst that validates the path beyond link-up.

use vstd::prelude::*;

verus! {

/// What the probe utility is asked to do.
#[derive(Clone, Copy, Debug, PartialEq, Eq)]
pub struct ProbeRequest {
    /// The IPv4 address to probe, most significant octet first.
    pub target: [u8; 4],
    /// How many echo requests to send, one after the other.
    pub count: u32,
    /// Seconds between two requests.
    pub interval_secs: u64,
    /// Seconds to wait for each reply.
    pub timeout_secs: u64,
    /// Bytes of payload in each request.
    pub payload_bytes: u32,
    /// The type-of-service octet of each request.
    pub tos: u8,
}

/// What the probe utility reports once every result is known.
#[derive(Clone, Copy, Debug, PartialEq, Eq)]
pub struct ProbeSummary {
    /// Requests sent.
    pub transmitted: u32,
    /// Replies received.
    pub received: u32,
    /// Milliseconds the replies took, taken together.
    pub elapsed_ms: u64,
}

/// The one health check made after an address is held: ten requests of 32
/// bytes to the gateway at 192.168.88.1, one per second, each given ten
/// seconds.
pub open spec fn health_check_spec() -> ProbeRequest {
    ProbeRequest {
        target: [192u8, 168u8, 88u8, 1u8],
        count: 10,
        interval_secs: 1,
        timeout_secs: 10,
        payload_bytes: 32,
        tos: 0,
    }
}

/// Requests without a reply: `transmitted - received`, and zero where
/// duplicated replies make `received` the larger.
pub open spec fn lost_of(summary: ProbeSummary) -> nat {
    if summary.received <= summary.transmitted {
        (summary.transmitted - summary.received) as nat
    } else {
        0
    }
}

impl ProbeRequest {
    /// The request of the post-bring-up health check.
    pub fn health_check() -> (request: ProbeRequest)
        ensures
            request == health_check_spec(),
    {
        ProbeRequest {
            target: [192u8, 168u8, 88u8, 1u8],
            count: 10,
            interval_secs: 1,
            timeout_secs: 10,
            payload_bytes: 32,
            tos: 0,
        }
    }
}

impl ProbeSummary {
    /// The number of requests that went unanswered.
    pub fn lost(&self) -> (lost: u32)
        ensures
            lost == lost_of(*self),
    {
        if self.received <= self.transmitted {
            self.transmitted - self.received
        } else {
            0
        }
    }
}

} // verus!
