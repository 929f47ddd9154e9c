//! Verified core of a download -> re-encode -> upload pipeline for video
//! assets.
//!
//! The library holds the logic of the transfer layer: planning chunked
//! transfers for destinations that cap the payload size per request,
//! validating per-destination credentials before any request is issued,
//! sequencing the messaging delivery (pre-message, asset, post-message),
//! interpreting destination responses, and driving the
//! fetch -> transform -> upload state machine with its cleanup policy.
//! The surrounding binary performs the network and file I/O and feeds the
//! outcomes back in as events.

use vstd::prelude::*;

pub mod asset;
pub mod chunk;
pub mod dispatch;
pub mod errors;
pub mod json;
pub mod messaging;
pub mod metadata;
pub mod pipeline;
pub mod probe;
pub mod router;
pub mod social;
pub mod text;

verus! {

/// The destination platforms a transfer can be routed to.
#[derive(Clone, Copy, Debug, PartialEq, Eq, Structural)]
pub enum Platform {
    Rutube,
    Telegram,
    Vk,
}

} // verus!
