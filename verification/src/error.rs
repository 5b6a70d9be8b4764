//! The outcome taxonomy of a resolution call.
//!
//! Transport failures (unreachable host, non-2xx, timeout) never reach this
//! crate: the caller's transport layer reports them itself.  Everything the
//! resolver can decide is one of the variants below.

use vstd::prelude::*;

verus! {

/// A response field the resolver requires.  Errors carry one of these so an
/// operator can tell "the platform changed its API" from "the room is not
/// live"; `name` gives the field's wire spelling.
#[derive(Clone, Copy, PartialEq, Eq, Structural, Debug)]
pub enum Field {
    /// The play-info payload under `data.playurl_info.playurl.stream`.
    StreamInfo,
    /// One entry of that payload, during URL extraction.
    Obj,
    Format,
    Codec,
    BaseUrl,
    UrlInfo,
    Host,
    Extra,
    RoomId,
    Status,
}

/// What a resolution step reports instead of a result.
#[derive(Clone, Copy, PartialEq, Eq, Structural, Debug)]
pub enum SeamError {
    /// The room has no resolvable stream right now.  A first-class outcome,
    /// not a fault: every platform status other than "broadcasting" maps here.
    NotLive,
    /// A required response field is missing or of the wrong shape.
    SchemaMismatch(Field),
    /// The negotiation probe advertised no quality tier at all.
    NoTiersAdvertised,
}

impl Field {
    /// The field's spelling on the wire, for operator-facing reports.
    pub fn name(&self) -> (r: &'static str) {
        match self {
            Field::StreamInfo => "stream_info",
            Field::Obj => "obj",
            Field::Format => "format",
            Field::Codec => "codec",
            Field::BaseUrl => "base_url",
            Field::UrlInfo => "url_info",
            Field::Host => "host",
            Field::Extra => "extra",
            Field::RoomId => "room_id",
            Field::Status => "status",
        }
    }
}

} // verus!
