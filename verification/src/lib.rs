//! Resolution of a live-streaming room id into the currently playable
//! broadcast: liveness determination, two-phase quality negotiation, and
//! defensive extraction of stream URLs from loosely shaped platform payloads.
//!
//! The transport (HTTP, JSON parsing) lives outside this crate; everything
//! here works on plain values and is verified.

pub mod bili;
pub mod error;
pub mod json;
pub mod node;
pub mod show;
pub mod util;
