//! A verified core for a forwarding proxy that mediates license requests
//! between client applications and a remote upstream service.
//!
//! The crate contains the request-orchestration logic: the per-request
//! decision pipeline, upstream transport selection, the timeout and failure
//! policy, the response synthesizer, and the batch replay job. Network I/O,
//! the durable cache, and signal handling are external collaborators driven
//! by the surrounding process.

pub mod config;
pub mod data;
pub mod json;
pub mod live;
pub mod replay;
pub mod shutdown;
pub mod synth;
pub mod upstream;

use vstd::prelude::*;

verus! {

/// Fixed identifier this proxy reports in the `server` header of every
/// response it synthesizes itself.
pub fn agent() -> (r: &'static str)
    ensures
        r@ == "frl-proxy"@,
{
    "frl-proxy"
}

} // verus!
