//! The unified result model: one record per successful resolution, whatever
//! the platform.

use vstd::prelude::*;

verus! {

/// A resolved, currently-live broadcast.  Only constructed after the
/// liveness determination succeeded: a not-live room never yields a `Node`.
pub struct Node {
    /// The platform's canonical room id — may differ from the id the caller
    /// supplied, which can be a vanity id.
    pub rid: String,
    /// Room title; a placeholder when the platform omitted it.
    pub title: String,
    /// Cover image URL; empty when omitted.
    pub cover: String,
    /// Anchor (streamer) name; empty when omitted.
    pub anchor: String,
    /// Anchor avatar URL; empty when omitted.
    pub head: String,
    /// Playable stream URLs, in platform-reported format/codec/CDN order.
    /// May be empty when the platform reported live but supplied no source.
    pub urls: Vec<String>,
}

} // verus!
