//! The single-endpoint provider pattern: one status query, one field check.
//!
//! Some platforms need no negotiation at all: one POST answers with a status
//! code and, when the room is on air, the playable URL.  The decision on
//! that response is the whole of such a provider's logic.

use vstd::prelude::*;

use crate::error::{Field, SeamError};
use crate::json::{get_spec, Json};

verus! {

/// The status value that means "on air" on such a platform.
pub const SHOW_STATUS_ON: u64 = 2;

/// A single-endpoint platform's answer: on air with its URLs, or off.
pub enum ShowType {
    On(Vec<String>),
    Off,
}

/// The room's reported URL: the string under `data.url`, empty when absent
/// or not a string.
pub open spec fn show_url_of(resp: Json) -> Seq<char> {
    match get_spec(get_spec(resp, "data"@), "url"@) {
        Json::Str(s) => s@,
        _ => Seq::empty(),
    }
}

/// Decide the show outcome from the status-endpoint response: the exact
/// on-air status yields `On` with the reported URL, every other numeric
/// status yields `Off`, and a non-numeric status is a schema mismatch.
pub fn get(resp: &Json) -> (r: Result<ShowType, SeamError>)
    ensures
        match get_spec(get_spec(*resp, "data"@), "status"@) {
            Json::Num(n) => if n == SHOW_STATUS_ON {
                r matches Ok(s) && s matches ShowType::On(v) && v.deep_view() == seq![
                    show_url_of(*resp),
                ]
            } else {
                r matches Ok(s) && s is Off
            },
            _ => r matches Err(e) && e == SeamError::SchemaMismatch(Field::Status),
        },
{
    let data = match resp.get("data") {
        Some(d) => d,
        None => return Err(SeamError::SchemaMismatch(Field::Status)),
    };
    let status = match data.get("status") {
        Some(Json::Num(n)) => *n,
        _ => return Err(SeamError::SchemaMismatch(Field::Status)),
    };
    if status != SHOW_STATUS_ON {
        return Ok(ShowType::Off);
    }
    let url: String = match data.get("url") {
        Some(Json::Str(s)) => s.clone(),
        _ => String::new(),
    };
    let mut v: Vec<String> = Vec::new();
    v.push(url);
    proof {
        assert(v.deep_view() =~= seq![show_url_of(*resp)]);
    }
    Ok(ShowType::On(v))
}

} // verus!
