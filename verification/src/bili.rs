//! The bilibili provider: liveness determination, two-phase quality
//! negotiation, and URL extraction over the platform's play-info payloads.
//!
//! The transport performs the HTTP round trips; every decision between them
//! is made here, on the already-parsed responses.  A resolution is a run of
//! the `Phase`/`Action` machine: room-init, a probe play-info query at the
//! sentinel tier, an optional refine query at the discovered best tier, and
//! a metadata query.

use vstd::prelude::*;

use crate::error::{Field, SeamError};
use crate::json::{arr_of, get_spec, str_of, Json};
use crate::node::Node;
use crate::util::{dec_spec, u64_to_string};

verus! {

/// The sentinel quality tier: guaranteed to exceed every real tier.  The
/// probe asks for it; a probe whose best advertised tier equals it already
/// carries the best available stream.
pub const SENTINEL_QN: u64 = 10000;

/// The one `live_status` value that means "broadcasting".  Every other
/// value — offline, replay, banned, any future code — reads as not live.
pub const LIVE_STATUS_BROADCASTING: u64 = 1;

// --- liveness and the canonical room id ------------------------------------

/// The `live_status` field of a room-init response.
pub open spec fn live_status_of(resp: Json) -> Json {
    get_spec(get_spec(resp, "data"@), "live_status"@)
}

/// The canonical room id field of a room-init response.
pub open spec fn room_id_of(resp: Json) -> Json {
    get_spec(get_spec(resp, "data"@), "room_id"@)
}

/// Whether the room-init response reports exactly the broadcasting status.
/// A closed allow-list: nothing else proceeds to negotiation.
pub open spec fn is_broadcasting(resp: Json) -> bool {
    live_status_of(resp) == Json::Num(LIVE_STATUS_BROADCASTING)
}

/// What the room-init decision yields: the canonical room id, `NotLive` for
/// every non-broadcasting response, or a schema mismatch when the
/// broadcasting room carries no numeric `room_id`.
pub open spec fn room_init_spec(resp: Json) -> Result<u64, SeamError> {
    if !is_broadcasting(resp) {
        Err(SeamError::NotLive)
    } else {
        match room_id_of(resp) {
            Json::Num(n) => Ok(n),
            _ => Err(SeamError::SchemaMismatch(Field::RoomId)),
        }
    }
}

// --- the play-info payload --------------------------------------------------

/// Where the play-info response nests its stream descriptors.
pub open spec fn stream_of(resp: Json) -> Json {
    get_spec(get_spec(get_spec(get_spec(resp, "data"@), "playurl_info"@), "playurl"@), "stream"@)
}

/// Borrow the nested stream payload of a play-info response; `None` reads as
/// `Null`.
pub fn stream_field<'a>(resp: &'a Json) -> (r: Option<&'a Json>)
    ensures
        match r {
            Some(v) => *v == stream_of(*resp),
            None => stream_of(*resp) == Json::Null,
        },
{
    let d = match resp.get("data") {
        Some(v) => v,
        None => return None,
    };
    let pi = match d.get("playurl_info") {
        Some(v) => v,
        None => return None,
    };
    let pu = match pi.get("playurl") {
        Some(v) => v,
        None => return None,
    };
    pu.get("stream")
}

// --- quality tiers -----------------------------------------------------------

/// The numeric entries of `s` from index `i` on, in order.  Advertised tiers
/// are collected this way: anything non-numeric among them is passed over.
pub open spec fn nums_from(s: Seq<Json>, i: int) -> Seq<u64>
    decreases s.len() - i,
{
    if i < 0 || i >= s.len() {
        Seq::empty()
    } else {
        match s[i] {
            Json::Num(n) => seq![n] + nums_from(s, i + 1),
            _ => nums_from(s, i + 1),
        }
    }
}

/// The quality tiers one codec advertises under `accept_qn`.
pub open spec fn codec_tiers(c: Json) -> Seq<u64> {
    nums_from(arr_of(get_spec(c, "accept_qn"@)), 0)
}

/// The tiers of the codecs `cs[i..]`, concatenated in order.
pub open spec fn tiers_in_codecs(cs: Seq<Json>, i: int) -> Seq<u64>
    decreases cs.len() - i,
{
    if i < 0 || i >= cs.len() {
        Seq::empty()
    } else {
        codec_tiers(cs[i]) + tiers_in_codecs(cs, i + 1)
    }
}

/// The tiers one format advertises, across all its codecs.
pub open spec fn format_tiers(f: Json) -> Seq<u64> {
    tiers_in_codecs(arr_of(get_spec(f, "codec"@)), 0)
}

/// The tiers of the formats `fs[i..]`, concatenated in order.
pub open spec fn tiers_in_formats(fs: Seq<Json>, i: int) -> Seq<u64>
    decreases fs.len() - i,
{
    if i < 0 || i >= fs.len() {
        Seq::empty()
    } else {
        format_tiers(fs[i]) + tiers_in_formats(fs, i + 1)
    }
}

/// The tiers one stream entry advertises, across all its formats.
pub open spec fn entry_tiers(e: Json) -> Seq<u64> {
    tiers_in_formats(arr_of(get_spec(e, "format"@)), 0)
}

/// The tiers of the entries `es[i..]`, concatenated in order.
pub open spec fn tiers_in_entries(es: Seq<Json>, i: int) -> Seq<u64>
    decreases es.len() - i,
{
    if i < 0 || i >= es.len() {
        Seq::empty()
    } else {
        entry_tiers(es[i]) + tiers_in_entries(es, i + 1)
    }
}

/// Every quality tier the probe response advertises, across all entries,
/// formats and codecs, in report order.  Never assumed to be a singleton.
pub open spec fn all_tiers(stream: Json) -> Seq<u64> {
    tiers_in_entries(arr_of(stream), 0)
}

/// The maximum of `s`, 0 when `s` is empty.
pub open spec fn max_of(s: Seq<u64>) -> u64
    decreases s.len(),
{
    if s.len() == 0 {
        0
    } else if s.last() > max_of(s.drop_last()) {
        s.last()
    } else {
        max_of(s.drop_last())
    }
}

/// The discovered best tier is itself an advertised tier, and no advertised
/// tier exceeds it.
pub proof fn lemma_max_of_is_max(s: Seq<u64>)
    requires
        s.len() > 0,
    ensures
        exists|j: int| 0 <= j < s.len() && s[j] == max_of(s),
        forall|j: int| 0 <= j < s.len() ==> s[j] <= max_of(s),
    decreases s.len(),
{
    if s.len() == 1 {
        assert(max_of(s.drop_last()) == 0);
        assert(s[0] == max_of(s));
    } else {
        let t = s.drop_last();
        lemma_max_of_is_max(t);
        assert(forall|j: int| 0 <= j < t.len() ==> s[j] == t[j]);
        if s.last() > max_of(t) {
            assert(s[s.len() - 1] == max_of(s));
        } else {
            let j = choose|j: int| 0 <= j < t.len() && t[j] == max_of(t);
            assert(s[j] == max_of(s));
        }
    }
}

/// Append one codec's advertised tiers to `acc`.
fn codec_tiers_exec(c: &Json, acc: &mut Vec<u64>)
    ensures
        final(acc)@ == old(acc)@ + codec_tiers(*c),
{
    let arr = match c.get("accept_qn") {
        Some(Json::Arr(v)) => v,
        _ => {
            proof {
                assert(acc@ =~= old(acc)@ + codec_tiers(*c));
            }
            return;
        },
    };
    let n = arr.len();
    let mut i: usize = 0;
    while i < n
        invariant
            n == arr@.len(),
            i <= n,
            arr@ == arr_of(get_spec(*c, "accept_qn"@)),
            old(acc)@ + codec_tiers(*c) == acc@ + nums_from(arr@, i as int),
        decreases n - i,
    {
        match &arr[i] {
            Json::Num(v) => {
                let v = *v;
                proof {
                    assert(nums_from(arr@, i as int) =~= seq![v] + nums_from(arr@, i + 1));
                }
                acc.push(v);
                proof {
                    assert(acc@ + nums_from(arr@, i + 1) =~= old(acc)@ + codec_tiers(*c));
                }
            },
            _ => (),
        }
        i = i + 1;
    }
    proof {
        assert(acc@ + nums_from(arr@, n as int) =~= acc@);
    }
}

/// Append one format's advertised tiers, across its codecs, to `acc`.
fn format_tiers_exec(f: &Json, acc: &mut Vec<u64>)
    ensures
        final(acc)@ == old(acc)@ + format_tiers(*f),
{
    let cs = match f.get("codec") {
        Some(Json::Arr(v)) => v,
        _ => {
            proof {
                assert(acc@ =~= old(acc)@ + format_tiers(*f));
            }
            return;
        },
    };
    let n = cs.len();
    let mut i: usize = 0;
    while i < n
        invariant
            n == cs@.len(),
            i <= n,
            cs@ == arr_of(get_spec(*f, "codec"@)),
            old(acc)@ + format_tiers(*f) == acc@ + tiers_in_codecs(cs@, i as int),
        decreases n - i,
    {
        proof {
            assert(tiers_in_codecs(cs@, i as int) =~= codec_tiers(cs@[i as int])
                + tiers_in_codecs(cs@, i + 1));
        }
        codec_tiers_exec(&cs[i], acc);
        proof {
            assert(acc@ + tiers_in_codecs(cs@, i + 1) =~= old(acc)@ + format_tiers(*f));
        }
        i = i + 1;
    }
    proof {
        assert(acc@ + tiers_in_codecs(cs@, n as int) =~= acc@);
    }
}

/// Append one stream entry's advertised tiers, across its formats, to `acc`.
fn entry_tiers_exec(e: &Json, acc: &mut Vec<u64>)
    ensures
        final(acc)@ == old(acc)@ + entry_tiers(*e),
{
    let fs = match e.get("format") {
        Some(Json::Arr(v)) => v,
        _ => {
            proof {
                assert(acc@ =~= old(acc)@ + entry_tiers(*e));
            }
            return;
        },
    };
    let n = fs.len();
    let mut i: usize = 0;
    while i < n
        invariant
            n == fs@.len(),
            i <= n,
            fs@ == arr_of(get_spec(*e, "format"@)),
            old(acc)@ + entry_tiers(*e) == acc@ + tiers_in_formats(fs@, i as int),
        decreases n - i,
    {
        proof {
            assert(tiers_in_formats(fs@, i as int) =~= format_tiers(fs@[i as int])
                + tiers_in_formats(fs@, i + 1));
        }
        format_tiers_exec(&fs[i], acc);
        proof {
            assert(acc@ + tiers_in_formats(fs@, i + 1) =~= old(acc)@ + entry_tiers(*e));
        }
        i = i + 1;
    }
    proof {
        assert(acc@ + tiers_in_formats(fs@, n as int) =~= acc@);
    }
}

// --- negotiation --------------------------------------------------------------

/// What to do after the probe: play the probe's own descriptor, or re-query
/// at the discovered best tier.
#[derive(Clone, Copy, PartialEq, Eq, Structural, Debug)]
pub enum Negotiation {
    UseProbe,
    Refine(u64),
}

/// The negotiation decision on a probe response.  The probe asked for the
/// sentinel tier; when the best advertised tier is the sentinel itself, the
/// probe already carries the best stream and no second query is due.  A
/// payload that is no array is a schema mismatch, and one advertising no
/// tier at all fails with `NoTiersAdvertised`, never with a shape error.
pub open spec fn negotiate_spec(resp: Json) -> Result<Negotiation, SeamError> {
    if !(stream_of(resp) is Arr) {
        Err(SeamError::SchemaMismatch(Field::StreamInfo))
    } else if all_tiers(stream_of(resp)).len() == 0 {
        Err(SeamError::NoTiersAdvertised)
    } else if max_of(all_tiers(stream_of(resp))) == SENTINEL_QN {
        Ok(Negotiation::UseProbe)
    } else {
        Ok(Negotiation::Refine(max_of(all_tiers(stream_of(resp)))))
    }
}

// --- URL extraction -----------------------------------------------------------

/// One CDN entry's playable URL: the exact string concatenation
/// `host + base_url + extra`, in this order.
pub open spec fn url_of(base: Seq<char>, u: Json) -> Seq<char> {
    str_of(get_spec(u, "host"@)) + base + str_of(get_spec(u, "extra"@))
}

/// The URLs of the CDN entries `us[i..]` of one codec, in order.
pub open spec fn urls_in_infos(base: Seq<char>, us: Seq<Json>, i: int) -> Seq<Seq<char>>
    decreases us.len() - i,
{
    if i < 0 || i >= us.len() {
        Seq::empty()
    } else {
        seq![url_of(base, us[i])] + urls_in_infos(base, us, i + 1)
    }
}

/// The URLs one codec yields: one per CDN entry, in report order.
pub open spec fn codec_urls(c: Json) -> Seq<Seq<char>> {
    urls_in_infos(str_of(get_spec(c, "base_url"@)), arr_of(get_spec(c, "url_info"@)), 0)
}

/// The URLs of the codecs `cs[i..]`, concatenated in order.
pub open spec fn urls_in_codecs(cs: Seq<Json>, i: int) -> Seq<Seq<char>>
    decreases cs.len() - i,
{
    if i < 0 || i >= cs.len() {
        Seq::empty()
    } else {
        codec_urls(cs[i]) + urls_in_codecs(cs, i + 1)
    }
}

/// The URLs one format yields, across all its codecs.
pub open spec fn format_urls(f: Json) -> Seq<Seq<char>> {
    urls_in_codecs(arr_of(get_spec(f, "codec"@)), 0)
}

/// The URLs of the formats `fs[i..]`, concatenated in order.
pub open spec fn urls_in_formats(fs: Seq<Json>, i: int) -> Seq<Seq<char>>
    decreases fs.len() - i,
{
    if i < 0 || i >= fs.len() {
        Seq::empty()
    } else {
        format_urls(fs[i]) + urls_in_formats(fs, i + 1)
    }
}

/// The URLs one stream entry yields, across all its formats.
pub open spec fn entry_urls(e: Json) -> Seq<Seq<char>> {
    urls_in_formats(arr_of(get_spec(e, "format"@)), 0)
}

/// The URLs of the entries `es[i..]`, concatenated in order.
pub open spec fn urls_in_entries(es: Seq<Json>, i: int) -> Seq<Seq<char>>
    decreases es.len() - i,
{
    if i < 0 || i >= es.len() {
        Seq::empty()
    } else {
        entry_urls(es[i]) + urls_in_entries(es, i + 1)
    }
}

/// Every playable URL of a stream payload: one per `(format, codec, CDN
/// entry)` triple, in report order at every level — no sorting, no
/// de-duplication.
pub open spec fn stream_urls(stream: Json) -> Seq<Seq<char>> {
    urls_in_entries(arr_of(stream), 0)
}

// --- shape validation ---------------------------------------------------------
//
// Every traversal level validates shape and names the first offending field
// in traversal order; `None` means the level is well-formed.

/// The first malformed field of one CDN entry.
pub open spec fn check_url_info(u: Json) -> Option<Field> {
    if !(get_spec(u, "host"@) is Str) {
        Some(Field::Host)
    } else if !(get_spec(u, "extra"@) is Str) {
        Some(Field::Extra)
    } else {
        None
    }
}

/// The first malformed field among the CDN entries `us[i..]`.
pub open spec fn check_infos_from(us: Seq<Json>, i: int) -> Option<Field>
    decreases us.len() - i,
{
    if i < 0 || i >= us.len() {
        None
    } else if check_url_info(us[i]) is Some {
        check_url_info(us[i])
    } else {
        check_infos_from(us, i + 1)
    }
}

/// The first malformed field of one codec.
pub open spec fn check_codec(c: Json) -> Option<Field> {
    if !(get_spec(c, "base_url"@) is Str) {
        Some(Field::BaseUrl)
    } else if !(get_spec(c, "url_info"@) is Arr) {
        Some(Field::UrlInfo)
    } else {
        check_infos_from(arr_of(get_spec(c, "url_info"@)), 0)
    }
}

/// The first malformed field among the codecs `cs[i..]`.
pub open spec fn check_codecs_from(cs: Seq<Json>, i: int) -> Option<Field>
    decreases cs.len() - i,
{
    if i < 0 || i >= cs.len() {
        None
    } else if check_codec(cs[i]) is Some {
        check_codec(cs[i])
    } else {
        check_codecs_from(cs, i + 1)
    }
}

/// The first malformed field of one format.
pub open spec fn check_format(f: Json) -> Option<Field> {
    if !(get_spec(f, "codec"@) is Arr) {
        Some(Field::Codec)
    } else {
        check_codecs_from(arr_of(get_spec(f, "codec"@)), 0)
    }
}

/// The first malformed field among the formats `fs[i..]`.
pub open spec fn check_formats_from(fs: Seq<Json>, i: int) -> Option<Field>
    decreases fs.len() - i,
{
    if i < 0 || i >= fs.len() {
        None
    } else if check_format(fs[i]) is Some {
        check_format(fs[i])
    } else {
        check_formats_from(fs, i + 1)
    }
}

/// The first malformed field of one stream entry.
pub open spec fn check_entry(e: Json) -> Option<Field> {
    if !(get_spec(e, "format"@) is Arr) {
        Some(Field::Format)
    } else {
        check_formats_from(arr_of(get_spec(e, "format"@)), 0)
    }
}

/// The first malformed field among the entries `es[i..]`.
pub open spec fn check_entries_from(es: Seq<Json>, i: int) -> Option<Field>
    decreases es.len() - i,
{
    if i < 0 || i >= es.len() {
        None
    } else if check_entry(es[i]) is Some {
        check_entry(es[i])
    } else {
        check_entries_from(es, i + 1)
    }
}

/// The first malformed field of a whole stream payload; `None` exactly when
/// the payload is a valid descriptor.
pub open spec fn check_stream(stream: Json) -> Option<Field> {
    if !(stream is Arr) {
        Some(Field::Obj)
    } else {
        check_entries_from(arr_of(stream), 0)
    }
}

/// What URL extraction yields on a play-info response: every URL in report
/// order, or a schema mismatch naming the first malformed field.
pub open spec fn extract_spec(resp: Json) -> Result<Seq<Seq<char>>, SeamError> {
    match check_stream(stream_of(resp)) {
        Some(f) => Err(SeamError::SchemaMismatch(f)),
        None => Ok(stream_urls(stream_of(resp))),
    }
}

// --- metadata -------------------------------------------------------------------
//
// Metadata is best-effort: an absent or ill-shaped field degrades to its
// default and never fails the call — playable URLs are the call's value.

/// The content of `j` when it is a string, `d` otherwise.
pub open spec fn str_or(j: Json, d: Seq<char>) -> Seq<char> {
    if j is Str {
        str_of(j)
    } else {
        d
    }
}

/// The room title of a metadata response, with the provider's placeholder
/// when absent.
pub open spec fn meta_title(meta: Json) -> Seq<char> {
    str_or(get_spec(get_spec(get_spec(meta, "data"@), "room_info"@), "title"@), "获取失败"@)
}

/// The cover image URL of a metadata response, empty when absent.
pub open spec fn meta_cover(meta: Json) -> Seq<char> {
    str_or(get_spec(get_spec(get_spec(meta, "data"@), "room_info"@), "cover"@), Seq::empty())
}

/// The anchor name of a metadata response, empty when absent.
pub open spec fn meta_anchor(meta: Json) -> Seq<char> {
    str_or(
        get_spec(
            get_spec(get_spec(get_spec(meta, "data"@), "anchor_info"@), "base_info"@),
            "uname"@,
        ),
        Seq::empty(),
    )
}

/// The anchor avatar URL of a metadata response, empty when absent.
pub open spec fn meta_head(meta: Json) -> Seq<char> {
    str_or(
        get_spec(
            get_spec(get_spec(get_spec(meta, "data"@), "anchor_info"@), "base_info"@),
            "face"@,
        ),
        Seq::empty(),
    )
}

/// What the refine pass yields: as extraction, except that a refine
/// response reporting no stream entry at all is a negotiation failure — the
/// platform advertised a tier and then supplied nothing, an inconsistency,
/// not a usable-but-empty result.
pub open spec fn refine_spec(resp: Json) -> Result<Seq<Seq<char>>, SeamError> {
    if stream_of(resp) is Arr && arr_of(stream_of(resp)).len() == 0 {
        Err(SeamError::NoTiersAdvertised)
    } else {
        extract_spec(resp)
    }
}

/// Build one CDN entry's URL.
fn url_info_url(base: &str, u: &Json) -> (r: Result<String, SeamError>)
    ensures
        r matches Ok(s) ==> check_url_info(*u) is None && s@ == url_of(base@, *u),
        r matches Err(e) ==> check_url_info(*u) matches Some(f) && e == SeamError::SchemaMismatch(
            f,
        ),
{
    let host = match u.get("host") {
        Some(Json::Str(h)) => h,
        _ => return Err(SeamError::SchemaMismatch(Field::Host)),
    };
    let extra = match u.get("extra") {
        Some(Json::Str(x)) => x,
        _ => return Err(SeamError::SchemaMismatch(Field::Extra)),
    };
    Ok(host.as_str().to_owned().concat(base).concat(extra.as_str()))
}

/// Append one codec's URLs to `acc`; on a schema mismatch `acc` is abandoned
/// with the whole call.
fn codec_urls_exec(c: &Json, acc: &mut Vec<String>) -> (r: Result<(), SeamError>)
    ensures
        r is Ok ==> check_codec(*c) is None && final(acc).deep_view() == old(acc).deep_view()
            + codec_urls(*c),
        r is Err ==> (check_codec(*c) matches Some(f) && r->Err_0 == SeamError::SchemaMismatch(f)),
{
    let base = match c.get("base_url") {
        Some(Json::Str(b)) => b,
        _ => return Err(SeamError::SchemaMismatch(Field::BaseUrl)),
    };
    let infos = match c.get("url_info") {
        Some(Json::Arr(v)) => v,
        _ => return Err(SeamError::SchemaMismatch(Field::UrlInfo)),
    };
    let n = infos.len();
    let mut i: usize = 0;
    while i < n
        invariant
            n == infos@.len(),
            i <= n,
            base@ == str_of(get_spec(*c, "base_url"@)),
            get_spec(*c, "base_url"@) is Str,
            get_spec(*c, "url_info"@) is Arr,
            infos@ == arr_of(get_spec(*c, "url_info"@)),
            check_infos_from(infos@, 0) == check_infos_from(infos@, i as int),
            old(acc).deep_view() + codec_urls(*c) == acc.deep_view() + urls_in_infos(
                base@,
                infos@,
                i as int,
            ),
        decreases n - i,
    {
        match url_info_url(base.as_str(), &infos[i]) {
            Ok(s) => {
                proof {
                    assert(urls_in_infos(base@, infos@, i as int) =~= seq![
                        url_of(base@, infos@[i as int]),
                    ] + urls_in_infos(base@, infos@, i + 1));
                }
                acc.push(s);
                proof {
                    assert(acc.deep_view() + urls_in_infos(base@, infos@, i + 1) =~= old(
                        acc,
                    ).deep_view() + codec_urls(*c));
                }
            },
            Err(e) => {
                return Err(e);
            },
        }
        i = i + 1;
    }
    proof {
        assert(acc.deep_view() + urls_in_infos(base@, infos@, n as int) =~= acc.deep_view());
    }
    Ok(())
}

/// Append one format's URLs, across its codecs, to `acc`.
fn format_urls_exec(f: &Json, acc: &mut Vec<String>) -> (r: Result<(), SeamError>)
    ensures
        r is Ok ==> check_format(*f) is None && final(acc).deep_view() == old(acc).deep_view()
            + format_urls(*f),
        r is Err ==> (check_format(*f) matches Some(g) && r->Err_0 == SeamError::SchemaMismatch(g)),
{
    let cs = match f.get("codec") {
        Some(Json::Arr(v)) => v,
        _ => return Err(SeamError::SchemaMismatch(Field::Codec)),
    };
    let n = cs.len();
    let mut i: usize = 0;
    while i < n
        invariant
            n == cs@.len(),
            i <= n,
            get_spec(*f, "codec"@) is Arr,
            cs@ == arr_of(get_spec(*f, "codec"@)),
            check_codecs_from(cs@, 0) == check_codecs_from(cs@, i as int),
            old(acc).deep_view() + format_urls(*f) == acc.deep_view() + urls_in_codecs(
                cs@,
                i as int,
            ),
        decreases n - i,
    {
        proof {
            assert(urls_in_codecs(cs@, i as int) =~= codec_urls(cs@[i as int]) + urls_in_codecs(
                cs@,
                i + 1,
            ));
        }
        match codec_urls_exec(&cs[i], acc) {
            Ok(()) => {
                proof {
                    assert(acc.deep_view() + urls_in_codecs(cs@, i + 1) =~= old(acc).deep_view()
                        + format_urls(*f));
                }
            },
            Err(e) => {
                return Err(e);
            },
        }
        i = i + 1;
    }
    proof {
        assert(acc.deep_view() + urls_in_codecs(cs@, n as int) =~= acc.deep_view());
    }
    Ok(())
}

/// Append one stream entry's URLs, across its formats, to `acc`.
fn entry_urls_exec(e: &Json, acc: &mut Vec<String>) -> (r: Result<(), SeamError>)
    ensures
        r is Ok ==> check_entry(*e) is None && final(acc).deep_view() == old(acc).deep_view()
            + entry_urls(*e),
        r is Err ==> (check_entry(*e) matches Some(g) && r->Err_0 == SeamError::SchemaMismatch(g)),
{
    let fs = match e.get("format") {
        Some(Json::Arr(v)) => v,
        _ => return Err(SeamError::SchemaMismatch(Field::Format)),
    };
    let n = fs.len();
    let mut i: usize = 0;
    while i < n
        invariant
            n == fs@.len(),
            i <= n,
            get_spec(*e, "format"@) is Arr,
            fs@ == arr_of(get_spec(*e, "format"@)),
            check_formats_from(fs@, 0) == check_formats_from(fs@, i as int),
            old(acc).deep_view() + entry_urls(*e) == acc.deep_view() + urls_in_formats(
                fs@,
                i as int,
            ),
        decreases n - i,
    {
        proof {
            assert(urls_in_formats(fs@, i as int) =~= format_urls(fs@[i as int]) + urls_in_formats(
                fs@,
                i + 1,
            ));
        }
        match format_urls_exec(&fs[i], acc) {
            Ok(()) => {
                proof {
                    assert(acc.deep_view() + urls_in_formats(fs@, i + 1) =~= old(acc).deep_view()
                        + entry_urls(*e));
                }
            },
            Err(e2) => {
                return Err(e2);
            },
        }
        i = i + 1;
    }
    proof {
        assert(acc.deep_view() + urls_in_formats(fs@, n as int) =~= acc.deep_view());
    }
    Ok(())
}

/// The bilibili provider: one platform's implementation of the resolution
/// capability.  Stateless: each resolution is an independent machine run,
/// safe to retry by starting over.
pub struct Client;

impl Client {
    /// Decide liveness from the room-init response and resolve the canonical
    /// room id.  Only the exact broadcasting status proceeds; every other
    /// response, wrong shape included, is `NotLive`.
    pub fn room_init(resp: &Json) -> (r: Result<u64, SeamError>)
        ensures
            r == room_init_spec(*resp),
    {
        let data = match resp.get("data") {
            Some(d) => d,
            None => return Err(SeamError::NotLive),
        };
        match data.get("live_status") {
            Some(Json::Num(n)) if *n == LIVE_STATUS_BROADCASTING => (),
            _ => return Err(SeamError::NotLive),
        }
        match data.get("room_id") {
            Some(Json::Num(n)) => Ok(*n),
            _ => Err(SeamError::SchemaMismatch(Field::RoomId)),
        }
    }

    /// Inspect the probe response and decide the follow-up query, as
    /// `negotiate_spec` states it.
    pub fn negotiate(resp: &Json) -> (r: Result<Negotiation, SeamError>)
        ensures
            r == negotiate_spec(*resp),
    {
        let stream = match stream_field(resp) {
            Some(s) => s,
            None => return Err(SeamError::SchemaMismatch(Field::StreamInfo)),
        };
        let entries = match stream {
            Json::Arr(v) => v,
            _ => return Err(SeamError::SchemaMismatch(Field::StreamInfo)),
        };
        let mut tiers: Vec<u64> = Vec::new();
        let n = entries.len();
        let mut i: usize = 0;
        while i < n
            invariant
                n == entries@.len(),
                i <= n,
                entries@ == arr_of(stream_of(*resp)),
                all_tiers(stream_of(*resp)) == tiers@ + tiers_in_entries(entries@, i as int),
            decreases n - i,
        {
            proof {
                assert(tiers_in_entries(entries@, i as int) =~= entry_tiers(entries@[i as int])
                    + tiers_in_entries(entries@, i + 1));
            }
            entry_tiers_exec(&entries[i], &mut tiers);
            proof {
                assert(tiers@ + tiers_in_entries(entries@, i + 1) =~= all_tiers(
                    stream_of(*resp),
                ));
            }
            i = i + 1;
        }
        proof {
            assert(tiers@ + tiers_in_entries(entries@, n as int) =~= tiers@);
        }
        if tiers.len() == 0 {
            return Err(SeamError::NoTiersAdvertised);
        }
        let mut m: u64 = tiers[0];
        proof {
            assert(max_of(Seq::<u64>::empty()) == 0);
            assert(tiers@.take(1).drop_last() =~= Seq::<u64>::empty());
            assert(tiers@.take(1).last() == tiers@[0]);
        }
        let mut k: usize = 1;
        while k < tiers.len()
            invariant
                1 <= k <= tiers@.len(),
                m == max_of(tiers@.take(k as int)),
            decreases tiers@.len() - k,
        {
            proof {
                assert(tiers@.take(k + 1).drop_last() =~= tiers@.take(k as int));
                assert(tiers@.take(k + 1).last() == tiers@[k as int]);
            }
            if tiers[k] > m {
                m = tiers[k];
            }
            k = k + 1;
        }
        proof {
            assert(tiers@.take(tiers@.len() as int) =~= tiers@);
        }
        if m == SENTINEL_QN {
            Ok(Negotiation::UseProbe)
        } else {
            Ok(Negotiation::Refine(m))
        }
    }

    /// Flatten the final play-info response into the list of playable URLs,
    /// as `extract_spec` states it: one URL per `(format, codec, CDN entry)`
    /// triple, in report order, or the first malformed field.
    pub fn extract_urls(resp: &Json) -> (r: Result<Vec<String>, SeamError>)
        ensures
            r matches Ok(v) ==> extract_spec(*resp) matches Ok(u) && v.deep_view() == u,
            r matches Err(e) ==> extract_spec(*resp) matches Err(e2) && e == e2,
    {
        let stream = match stream_field(resp) {
            Some(s) => s,
            None => return Err(SeamError::SchemaMismatch(Field::Obj)),
        };
        let entries = match stream {
            Json::Arr(v) => v,
            _ => return Err(SeamError::SchemaMismatch(Field::Obj)),
        };
        let mut acc: Vec<String> = Vec::new();
        proof {
            assert(acc.deep_view() =~= Seq::<Seq<char>>::empty());
        }
        let n = entries.len();
        let mut i: usize = 0;
        while i < n
            invariant
                n == entries@.len(),
                i <= n,
                stream_of(*resp) is Arr,
                entries@ == arr_of(stream_of(*resp)),
                check_entries_from(entries@, 0) == check_entries_from(entries@, i as int),
                stream_urls(stream_of(*resp)) == acc.deep_view() + urls_in_entries(
                    entries@,
                    i as int,
                ),
            decreases n - i,
        {
            proof {
                assert(urls_in_entries(entries@, i as int) =~= entry_urls(entries@[i as int])
                    + urls_in_entries(entries@, i + 1));
            }
            match entry_urls_exec(&entries[i], &mut acc) {
                Ok(()) => {
                    proof {
                        assert(acc.deep_view() + urls_in_entries(entries@, i + 1) =~= stream_urls(
                            stream_of(*resp),
                        ));
                    }
                },
                Err(e) => {
                    return Err(e);
                },
            }
            i = i + 1;
        }
        proof {
            assert(acc.deep_view() + urls_in_entries(entries@, n as int) =~= acc.deep_view());
        }
        Ok(acc)
    }

    /// Flatten the refine play-info response, holding it to the refine-pass
    /// policy of `refine_spec`: a refine that reports no stream entry fails
    /// the negotiation instead of yielding an empty result.
    pub fn extract_refine(resp: &Json) -> (r: Result<Vec<String>, SeamError>)
        ensures
            r matches Ok(v) ==> refine_spec(*resp) matches Ok(u) && v.deep_view() == u,
            r matches Err(e) ==> refine_spec(*resp) matches Err(e2) && e == e2,
    {
        let no_entries = match stream_field(resp) {
            Some(Json::Arr(v)) => v.len() == 0,
            _ => false,
        };
        if no_entries {
            return Err(SeamError::NoTiersAdvertised);
        }
        Self::extract_urls(resp)
    }

    /// Assemble the unified record from the metadata response.  Absent
    /// metadata degrades to defaults; it never fails the call.
    pub fn assemble(rid: String, urls: Vec<String>, meta: &Json) -> (n: Node)
        ensures
            n.rid == rid,
            n.urls == urls,
            n.title@ == meta_title(*meta),
            n.cover@ == meta_cover(*meta),
            n.anchor@ == meta_anchor(*meta),
            n.head@ == meta_head(*meta),
    {
        let data = meta.get("data");
        let room_info = match data {
            Some(d) => d.get("room_info"),
            None => None,
        };
        let base_info = match data {
            Some(d) => match d.get("anchor_info") {
                Some(a) => a.get("base_info"),
                None => None,
            },
            None => None,
        };
        let title = match room_info {
            Some(ri) => match ri.get("title") {
                Some(Json::Str(s)) => s.clone(),
                _ => "获取失败".to_owned(),
            },
            None => "获取失败".to_owned(),
        };
        let cover = match room_info {
            Some(ri) => match ri.get("cover") {
                Some(Json::Str(s)) => s.clone(),
                _ => String::new(),
            },
            None => String::new(),
        };
        let anchor = match base_info {
            Some(bi) => match bi.get("uname") {
                Some(Json::Str(s)) => s.clone(),
                _ => String::new(),
            },
            None => String::new(),
        };
        let head = match base_info {
            Some(bi) => match bi.get("face") {
                Some(Json::Str(s)) => s.clone(),
                _ => String::new(),
            },
            None => String::new(),
        };
        Node { rid, title, cover, anchor, head, urls }
    }
}

// --- the resolution machine ------------------------------------------------------
//
// A resolution is an explicit two-phase negotiation: probe, then refine only
// when the probe did not already return the best stream.  The machine makes
// every decision; the driver owns the transport and performs exactly the
// actions the machine asks for, so the contracts below pin down how many
// play-info queries a resolution issues.

/// The outbound request the driver must perform next.
pub enum Action {
    /// Query the room-init endpoint with the caller-supplied room id.
    RoomInit,
    /// Query the play-info endpoint for `rid` at quality `qn`.
    PlayInfo { rid: u64, qn: u64 },
    /// Query the metadata endpoint for `rid`.
    Metadata { rid: u64 },
    /// The resolution is complete.
    Finish,
}

/// Where a resolution stands: which response the machine waits for next.
pub enum Phase {
    /// Waiting for the room-init response.
    Init,
    /// Waiting for the probe play-info response, asked at the sentinel tier.
    Probe { rid: u64 },
    /// Waiting for the refine play-info response, asked at the discovered
    /// best tier `qn`.
    Refine { rid: u64, qn: u64 },
    /// Waiting for the metadata response; the stream URLs are already in
    /// hand.
    Meta { rid: u64, urls: Vec<String> },
    /// Finished: the unified record is ready.
    Done { node: Node },
}

impl Client {
    /// Begin a resolution: the machine first asks for the room-init lookup.
    pub fn start() -> (r: (Phase, Action))
        ensures
            r.0 is Init,
            r.1 is RoomInit,
    {
        (Phase::Init, Action::RoomInit)
    }

    /// Advance a resolution with the response to the action asked for last.
    ///
    /// The contract pins the protocol's round-trip count: a non-broadcasting
    /// room stops at room-init with `NotLive`, before any play-info query;
    /// the probe issues exactly one play-info query, at the sentinel tier; a
    /// second one is issued exactly when the discovered best tier differs
    /// from the sentinel, and asks exactly that tier; nothing after the
    /// final descriptor issues a play-info query.
    pub fn step(phase: Phase, resp: &Json) -> (r: Result<(Phase, Action), SeamError>)
        requires
            !(phase is Done),
        ensures
            phase is Init ==> (match room_init_spec(*resp) {
                Ok(n) => r matches Ok((p, a)) && p == (Phase::Probe { rid: n }) && a == (
                Action::PlayInfo { rid: n, qn: SENTINEL_QN }),
                Err(e) => r matches Err(e2) && e2 == e,
            }),
            phase matches Phase::Probe { rid } ==> (match negotiate_spec(*resp) {
                Ok(Negotiation::UseProbe) => (match extract_spec(*resp) {
                    Ok(urls) => r matches Ok((p, a)) && (p matches Phase::Meta {
                        rid: r2,
                        urls: u,
                    } && r2 == rid && u.deep_view() == urls) && a == (Action::Metadata { rid }),
                    Err(e) => r matches Err(e2) && e2 == e,
                }),
                Ok(Negotiation::Refine(q)) => r matches Ok((p, a)) && p == (Phase::Refine {
                    rid,
                    qn: q,
                }) && a == (Action::PlayInfo { rid, qn: q }),
                Err(e) => r matches Err(e2) && e2 == e,
            }),
            phase matches Phase::Refine { rid, qn } ==> (match refine_spec(*resp) {
                Ok(urls) => r matches Ok((p, a)) && (p matches Phase::Meta { rid: r2, urls: u }
                    && r2 == rid && u.deep_view() == urls) && a == (Action::Metadata { rid }),
                Err(e) => r matches Err(e2) && e2 == e,
            }),
            phase matches Phase::Meta { rid, urls } ==> (r matches Ok((p, a)) && a is Finish && (
            p matches Phase::Done { node } && node.rid@ == dec_spec(rid as nat) && node.urls == urls
                && node.title@ == meta_title(*resp) && node.cover@ == meta_cover(*resp)
                && node.anchor@ == meta_anchor(*resp) && node.head@ == meta_head(*resp))),
    {
        match phase {
            Phase::Init => {
                let rid = match Self::room_init(resp) {
                    Ok(n) => n,
                    Err(e) => return Err(e),
                };
                Ok((Phase::Probe { rid }, Action::PlayInfo { rid, qn: SENTINEL_QN }))
            },
            Phase::Probe { rid } => match Self::negotiate(resp) {
                Ok(Negotiation::UseProbe) => match Self::extract_urls(resp) {
                    Ok(urls) => Ok((Phase::Meta { rid, urls }, Action::Metadata { rid })),
                    Err(e) => Err(e),
                },
                Ok(Negotiation::Refine(q)) => Ok(
                    (Phase::Refine { rid, qn: q }, Action::PlayInfo { rid, qn: q }),
                ),
                Err(e) => Err(e),
            },
            Phase::Refine { rid, .. } => match Self::extract_refine(resp) {
                Ok(urls) => Ok((Phase::Meta { rid, urls }, Action::Metadata { rid })),
                Err(e) => Err(e),
            },
            Phase::Meta { rid, urls } => {
                let node = Self::assemble(u64_to_string(rid), urls, resp);
                Ok((Phase::Done { node }, Action::Finish))
            },
            Phase::Done { node } => Ok((Phase::Done { node }, Action::Finish)),
        }
    }

    /// The whole resolution protocol on already-parsed responses: the
    /// composition the driver's loop performs, end to end.  `refine` is read
    /// only when the probe's best advertised tier differs from the sentinel;
    /// the `bool` of a success says whether that second play-info query was
    /// due — the protocol issues one play-info query when the probe echoed
    /// the sentinel, two otherwise, and none for a room that is not live.
    pub fn resolve_responses(init: &Json, probe: &Json, refine: &Json, meta: &Json) -> (r: Result<
        (Node, bool),
        SeamError,
    >)
        ensures
            room_init_spec(*init) matches Err(e) ==> (r matches Err(e2) && e2 == e),
            room_init_spec(*init) matches Ok(n) ==> (match negotiate_spec(*probe) {
                Err(e) => r matches Err(e2) && e2 == e,
                Ok(Negotiation::UseProbe) => (match extract_spec(*probe) {
                    Err(e) => r matches Err(e2) && e2 == e,
                    Ok(urls) => r matches Ok((node, refined)) && !refined && node.urls.deep_view()
                        == urls && node.rid@ == dec_spec(n as nat) && node.title@ == meta_title(
                        *meta,
                    ) && node.cover@ == meta_cover(*meta) && node.anchor@ == meta_anchor(*meta)
                        && node.head@ == meta_head(*meta),
                }),
                Ok(Negotiation::Refine(q)) => (match refine_spec(*refine) {
                    Err(e) => r matches Err(e2) && e2 == e,
                    Ok(urls) => r matches Ok((node, refined)) && refined && node.urls.deep_view()
                        == urls && node.rid@ == dec_spec(n as nat) && node.title@ == meta_title(
                        *meta,
                    ) && node.cover@ == meta_cover(*meta) && node.anchor@ == meta_anchor(*meta)
                        && node.head@ == meta_head(*meta),
                }),
            }),
    {
        let rid = match Self::room_init(init) {
            Ok(n) => n,
            Err(e) => return Err(e),
        };
        let (urls, refined) = match Self::negotiate(probe) {
            Ok(Negotiation::UseProbe) => match Self::extract_urls(probe) {
                Ok(u) => (u, false),
                Err(e) => return Err(e),
            },
            Ok(Negotiation::Refine(_)) => match Self::extract_refine(refine) {
                Ok(u) => (u, true),
                Err(e) => return Err(e),
            },
            Err(e) => return Err(e),
        };
        Ok((Self::assemble(u64_to_string(rid), urls, meta), refined))
    }
}

// --- the extraction law ------------------------------------------------------------

/// The number of `(format, codec, CDN entry)` triples one codec carries.
pub open spec fn codec_triples(c: Json) -> nat {
    arr_of(get_spec(c, "url_info"@)).len()
}

/// The triples of the codecs `cs[i..]`.
pub open spec fn triples_in_codecs(cs: Seq<Json>, i: int) -> nat
    decreases cs.len() - i,
{
    if i < 0 || i >= cs.len() {
        0
    } else {
        codec_triples(cs[i]) + triples_in_codecs(cs, i + 1)
    }
}

/// The triples one format carries.
pub open spec fn format_triples(f: Json) -> nat {
    triples_in_codecs(arr_of(get_spec(f, "codec"@)), 0)
}

/// The triples of the formats `fs[i..]`.
pub open spec fn triples_in_formats(fs: Seq<Json>, i: int) -> nat
    decreases fs.len() - i,
{
    if i < 0 || i >= fs.len() {
        0
    } else {
        format_triples(fs[i]) + triples_in_formats(fs, i + 1)
    }
}

/// The triples one stream entry carries.
pub open spec fn entry_triples(e: Json) -> nat {
    triples_in_formats(arr_of(get_spec(e, "format"@)), 0)
}

/// The triples of the entries `es[i..]`.
pub open spec fn triples_in_entries(es: Seq<Json>, i: int) -> nat
    decreases es.len() - i,
{
    if i < 0 || i >= es.len() {
        0
    } else {
        entry_triples(es[i]) + triples_in_entries(es, i + 1)
    }
}

/// The total count of `(format, codec, CDN entry)` triples of a stream
/// payload.
pub open spec fn stream_triples(stream: Json) -> nat {
    triples_in_entries(arr_of(stream), 0)
}

proof fn lemma_urls_in_infos_len(base: Seq<char>, us: Seq<Json>, i: int)
    requires
        0 <= i <= us.len(),
    ensures
        urls_in_infos(base, us, i).len() == us.len() - i,
    decreases us.len() - i,
{
    if i < us.len() {
        lemma_urls_in_infos_len(base, us, i + 1);
    }
}

proof fn lemma_urls_in_codecs_len(cs: Seq<Json>, i: int)
    requires
        0 <= i <= cs.len(),
    ensures
        urls_in_codecs(cs, i).len() == triples_in_codecs(cs, i),
    decreases cs.len() - i,
{
    if i < cs.len() {
        lemma_urls_in_infos_len(
            str_of(get_spec(cs[i], "base_url"@)),
            arr_of(get_spec(cs[i], "url_info"@)),
            0,
        );
        lemma_urls_in_codecs_len(cs, i + 1);
    }
}

proof fn lemma_urls_in_formats_len(fs: Seq<Json>, i: int)
    requires
        0 <= i <= fs.len(),
    ensures
        urls_in_formats(fs, i).len() == triples_in_formats(fs, i),
    decreases fs.len() - i,
{
    if i < fs.len() {
        lemma_urls_in_codecs_len(arr_of(get_spec(fs[i], "codec"@)), 0);
        lemma_urls_in_formats_len(fs, i + 1);
    }
}

proof fn lemma_urls_in_entries_len(es: Seq<Json>, i: int)
    requires
        0 <= i <= es.len(),
    ensures
        urls_in_entries(es, i).len() == triples_in_entries(es, i),
    decreases es.len() - i,
{
    if i < es.len() {
        lemma_urls_in_formats_len(arr_of(get_spec(es[i], "format"@)), 0);
        lemma_urls_in_entries_len(es, i + 1);
    }
}

/// URL extraction emits exactly one URL per `(format, codec, CDN entry)`
/// triple: the flattened output's length equals the payload's total triple
/// count.
pub proof fn lemma_stream_url_count(stream: Json)
    ensures
        stream_urls(stream).len() == stream_triples(stream),
{
    lemma_urls_in_entries_len(arr_of(stream), 0);
}

proof fn lemma_urls_in_infos_index(base: Seq<char>, us: Seq<Json>, i: int, k: int)
    requires
        0 <= i,
        0 <= k,
        i + k < us.len(),
    ensures
        urls_in_infos(base, us, i)[k] == url_of(base, us[i + k]),
    decreases k,
{
    lemma_urls_in_infos_len(base, us, i + 1);
    if k > 0 {
        lemma_urls_in_infos_index(base, us, i + 1, k - 1);
    }
}

/// Within one codec, the k-th emitted URL is exactly `host + base_url +
/// extra` of the k-th CDN entry: emission follows input order, with the
/// exact concatenation per triple.
pub proof fn lemma_codec_url_exact(c: Json, k: int)
    requires
        0 <= k < codec_triples(c),
    ensures
        codec_urls(c).len() == codec_triples(c),
        codec_urls(c)[k] == url_of(
            str_of(get_spec(c, "base_url"@)),
            arr_of(get_spec(c, "url_info"@))[k],
        ),
{
    lemma_urls_in_infos_len(str_of(get_spec(c, "base_url"@)), arr_of(get_spec(c, "url_info"@)), 0);
    lemma_urls_in_infos_index(
        str_of(get_spec(c, "base_url"@)),
        arr_of(get_spec(c, "url_info"@)),
        0,
        k,
    );
}

} // verus!
