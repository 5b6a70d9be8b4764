use seam::bili::{Action, Client, Negotiation, Phase, SENTINEL_QN};
use seam::error::{Field, SeamError};
use seam::json::Json;
use seam::node::Node;
use seam::show::{self, ShowType};
use seam::util::u64_to_string;

fn s(x: &str) -> Json {
    Json::Str(x.to_string())
}

fn n(x: u64) -> Json {
    Json::Num(x)
}

fn obj(pairs: Vec<(&str, Json)>) -> Json {
    Json::Obj(pairs.into_iter().map(|(k, v)| (k.to_string(), v)).collect())
}

fn url_info(host: &str, extra: &str) -> Json {
    obj(vec![("host", s(host)), ("extra", s(extra))])
}

fn codec(base: &str, qns: Vec<u64>, infos: Vec<Json>) -> Json {
    obj(vec![
        ("base_url", s(base)),
        ("accept_qn", Json::Arr(qns.into_iter().map(n).collect())),
        ("url_info", Json::Arr(infos)),
    ])
}

fn format_of(codecs: Vec<Json>) -> Json {
    obj(vec![("codec", Json::Arr(codecs))])
}

fn entry(formats: Vec<Json>) -> Json {
    obj(vec![("format", Json::Arr(formats))])
}

fn play_resp(entries: Vec<Json>) -> Json {
    obj(vec![(
        "data",
        obj(vec![(
            "playurl_info",
            obj(vec![("playurl", obj(vec![("stream", Json::Arr(entries))]))]),
        )]),
    )])
}

fn init_resp(live_status: u64, room_id: u64) -> Json {
    obj(vec![(
        "data",
        obj(vec![("live_status", n(live_status)), ("room_id", n(room_id))]),
    )])
}

fn meta_resp(title: Option<&str>, cover: Option<&str>, uname: Option<&str>, face: Option<&str>) -> Json {
    let mut room_info = Vec::new();
    if let Some(t) = title {
        room_info.push(("title", s(t)));
    }
    if let Some(c) = cover {
        room_info.push(("cover", s(c)));
    }
    let mut base_info = Vec::new();
    if let Some(u) = uname {
        base_info.push(("uname", s(u)));
    }
    if let Some(f) = face {
        base_info.push(("face", s(f)));
    }
    obj(vec![(
        "data",
        obj(vec![
            ("room_info", obj(room_info)),
            ("anchor_info", obj(vec![("base_info", obj(base_info))])),
        ]),
    )])
}

// --- room-init -------------------------------------------------------------

#[test]
fn room_init_live_resolves_canonical_id() {
    let r = Client::room_init(&init_resp(1, 7734200));
    assert_eq!(r, Ok(7734200));
}

#[test]
fn room_init_offline_is_not_live() {
    let r = Client::room_init(&init_resp(0, 7734200));
    assert_eq!(r, Err(SeamError::NotLive));
}

#[test]
fn room_init_replay_is_not_live() {
    let r = Client::room_init(&init_resp(2, 7734200));
    assert_eq!(r, Err(SeamError::NotLive));
}

#[test]
fn room_init_empty_response_is_not_live() {
    let r = Client::room_init(&obj(vec![]));
    assert_eq!(r, Err(SeamError::NotLive));
}

#[test]
fn room_init_live_without_room_id_is_schema_mismatch() {
    let resp = obj(vec![("data", obj(vec![("live_status", n(1))]))]);
    let r = Client::room_init(&resp);
    assert_eq!(r, Err(SeamError::SchemaMismatch(Field::RoomId)));
    assert_eq!(Field::RoomId.name(), "room_id");
}

// --- negotiation -----------------------------------------------------------

fn probe_with_tiers(qns: Vec<u64>) -> Json {
    play_resp(vec![entry(vec![format_of(vec![codec(
        "/live/x.flv",
        qns,
        vec![url_info("https://cdn.example", "?sig=1")],
    )])])])
}

#[test]
fn negotiate_sentinel_max_uses_probe() {
    let r = Client::negotiate(&probe_with_tiers(vec![150, 400, 10000]));
    assert_eq!(r, Ok(Negotiation::UseProbe));
}

#[test]
fn negotiate_requeries_at_discovered_max() {
    let r = Client::negotiate(&probe_with_tiers(vec![150, 400]));
    assert_eq!(r, Ok(Negotiation::Refine(400)));
}

#[test]
fn negotiate_collects_tiers_across_codecs() {
    let resp = play_resp(vec![entry(vec![format_of(vec![
        codec("/a.flv", vec![150], vec![url_info("h", "e")]),
        codec("/b.m3u8", vec![250, 400], vec![url_info("h", "e")]),
    ])])]);
    assert_eq!(Client::negotiate(&resp), Ok(Negotiation::Refine(400)));
}

#[test]
fn negotiate_empty_tier_set_is_no_tiers_advertised() {
    let r = Client::negotiate(&probe_with_tiers(vec![]));
    assert_eq!(r, Err(SeamError::NoTiersAdvertised));
}

#[test]
fn negotiate_absent_tier_arrays_is_no_tiers_advertised() {
    let c = obj(vec![
        ("base_url", s("/live/x.flv")),
        ("url_info", Json::Arr(vec![url_info("h", "e")])),
    ]);
    let resp = play_resp(vec![entry(vec![format_of(vec![c])])]);
    let r = Client::negotiate(&resp);
    assert_eq!(r, Err(SeamError::NoTiersAdvertised));
}

#[test]
fn negotiate_stream_not_array_is_schema_mismatch() {
    let resp = obj(vec![("data", obj(vec![]))]);
    let r = Client::negotiate(&resp);
    assert_eq!(r, Err(SeamError::SchemaMismatch(Field::StreamInfo)));
    assert_eq!(Field::StreamInfo.name(), "stream_info");
}

// --- URL extraction ---------------------------------------------------------

#[test]
fn extract_concatenates_in_order() {
    let resp = play_resp(vec![entry(vec![
        format_of(vec![codec(
            "/live/a.flv",
            vec![10000],
            vec![url_info("https://cn-1.example", "?k=1"), url_info("https://cn-2.example", "?k=2")],
        )]),
        format_of(vec![codec(
            "/live/a.m3u8",
            vec![10000],
            vec![url_info("https://cn-3.example", "?k=3"), url_info("https://cn-4.example", "?k=4")],
        )]),
    ])]);
    let urls = Client::extract_urls(&resp).unwrap();
    assert_eq!(
        urls,
        vec![
            "https://cn-1.example/live/a.flv?k=1".to_string(),
            "https://cn-2.example/live/a.flv?k=2".to_string(),
            "https://cn-3.example/live/a.m3u8?k=3".to_string(),
            "https://cn-4.example/live/a.m3u8?k=4".to_string(),
        ]
    );
}

#[test]
fn extract_missing_base_url_is_schema_mismatch() {
    let c = obj(vec![
        ("accept_qn", Json::Arr(vec![n(10000)])),
        ("url_info", Json::Arr(vec![url_info("h", "e")])),
    ]);
    let resp = play_resp(vec![entry(vec![format_of(vec![c])])]);
    let r = Client::extract_urls(&resp);
    assert_eq!(r, Err(SeamError::SchemaMismatch(Field::BaseUrl)));
    assert_eq!(Field::BaseUrl.name(), "base_url");
}

#[test]
fn extract_missing_host_is_schema_mismatch() {
    let bad = obj(vec![("extra", s("?k"))]);
    let resp = play_resp(vec![entry(vec![format_of(vec![codec(
        "/live/a.flv",
        vec![10000],
        vec![bad],
    )])])]);
    assert_eq!(
        Client::extract_urls(&resp),
        Err(SeamError::SchemaMismatch(Field::Host))
    );
}

#[test]
fn extract_missing_extra_is_schema_mismatch() {
    let bad = obj(vec![("host", s("https://cdn"))]);
    let resp = play_resp(vec![entry(vec![format_of(vec![codec(
        "/live/a.flv",
        vec![10000],
        vec![bad],
    )])])]);
    assert_eq!(
        Client::extract_urls(&resp),
        Err(SeamError::SchemaMismatch(Field::Extra))
    );
}

#[test]
fn extract_non_array_stream_is_schema_mismatch() {
    let resp = obj(vec![("data", obj(vec![]))]);
    let r = Client::extract_urls(&resp);
    assert_eq!(r, Err(SeamError::SchemaMismatch(Field::Obj)));
}

#[test]
fn extract_missing_format_and_codec_name_their_fields() {
    let no_format = obj(vec![]);
    let resp = play_resp(vec![no_format]);
    assert_eq!(
        Client::extract_urls(&resp),
        Err(SeamError::SchemaMismatch(Field::Format))
    );
    let no_codec = entry(vec![obj(vec![])]);
    let resp2 = play_resp(vec![no_codec]);
    assert_eq!(
        Client::extract_urls(&resp2),
        Err(SeamError::SchemaMismatch(Field::Codec))
    );
}

#[test]
fn extract_empty_stream_is_usable_but_empty() {
    let urls = Client::extract_urls(&play_resp(vec![])).unwrap();
    assert_eq!(urls, Vec::<String>::new());
}

// --- metadata ----------------------------------------------------------------

#[test]
fn assemble_missing_cover_defaults_to_empty() {
    let meta = meta_resp(Some("A room"), None, Some("someone"), None);
    let node: Node = Client::assemble("1".to_string(), vec![], &meta);
    assert_eq!(node.title, "A room");
    assert_eq!(node.cover, "");
    assert_eq!(node.anchor, "someone");
    assert_eq!(node.head, "");
}

#[test]
fn assemble_missing_title_uses_placeholder() {
    let meta = obj(vec![]);
    let node = Client::assemble("1".to_string(), vec!["u".to_string()], &meta);
    assert_eq!(node.title, "获取失败");
    assert_eq!(node.urls, vec!["u".to_string()]);
    assert_eq!(node.rid, "1");
}

// --- the machine, end to end ----------------------------------------------------

struct Run {
    play_info_calls: Vec<u64>,
    metadata_calls: usize,
    node: Option<Node>,
    err: Option<SeamError>,
}

/// Drive a full resolution against canned responses, counting the network
/// calls the machine asks for.
fn run_machine(init: Json, probe: Json, refine: Option<Json>, meta: Json) -> Run {
    let mut run = Run { play_info_calls: Vec::new(), metadata_calls: 0, node: None, err: None };
    let (mut phase, mut action) = Client::start();
    loop {
        let resp = match action {
            Action::RoomInit => deep_clone(&init),
            Action::PlayInfo { qn, .. } => {
                run.play_info_calls.push(qn);
                if run.play_info_calls.len() == 1 {
                    deep_clone(&probe)
                } else {
                    deep_clone(refine.as_ref().expect("unexpected refine query"))
                }
            }
            Action::Metadata { .. } => {
                run.metadata_calls += 1;
                deep_clone(&meta)
            }
            Action::Finish => {
                match phase {
                    Phase::Done { node } => run.node = Some(node),
                    _ => panic!("finish outside the done phase"),
                }
                return run;
            }
        };
        match Client::step(phase, &resp) {
            Ok((p, a)) => {
                phase = p;
                action = a;
            }
            Err(e) => {
                run.err = Some(e);
                return run;
            }
        }
    }
}

fn deep_clone(j: &Json) -> Json {
    match j {
        Json::Null => Json::Null,
        Json::Bool(b) => Json::Bool(*b),
        Json::Num(v) => Json::Num(*v),
        Json::Str(v) => Json::Str(v.clone()),
        Json::Arr(v) => Json::Arr(v.iter().map(deep_clone).collect()),
        Json::Obj(v) => Json::Obj(v.iter().map(|(k, x)| (k.clone(), deep_clone(x))).collect()),
    }
}

#[test]
fn end_to_end_sentinel_probe_two_calls_four_urls() {
    let probe = play_resp(vec![
        entry(vec![format_of(vec![codec(
            "/live/a.flv",
            vec![150, 400, 10000],
            vec![url_info("https://cn-1", "?1"), url_info("https://cn-2", "?2")],
        )])]),
        entry(vec![format_of(vec![codec(
            "/live/b.m3u8",
            vec![150, 400, 10000],
            vec![url_info("https://cn-3", "?3"), url_info("https://cn-4", "?4")],
        )])]),
    ]);
    let meta = meta_resp(Some("t"), Some("c"), Some("u"), Some("f"));
    let run = run_machine(init_resp(1, 42), probe, None, meta);
    assert!(run.err.is_none());
    // room-init plus exactly one play-info query: the probe already carried
    // the best stream.
    assert_eq!(run.play_info_calls, vec![SENTINEL_QN]);
    assert_eq!(run.metadata_calls, 1);
    let node = run.node.unwrap();
    assert_eq!(node.urls.len(), 4);
    assert_eq!(node.rid, "42");
    assert_eq!(node.urls[0], "https://cn-1/live/a.flv?1");
}

#[test]
fn end_to_end_refine_requeries_at_max_and_uses_refine_payload() {
    let probe = probe_with_tiers(vec![150, 400]);
    let refine = play_resp(vec![entry(vec![format_of(vec![codec(
        "/live/best.flv",
        vec![400],
        vec![url_info("https://cdn", "?best")],
    )])])]);
    let meta = meta_resp(Some("t"), None, None, None);
    let run = run_machine(init_resp(1, 9), probe, Some(refine), meta);
    assert!(run.err.is_none());
    assert_eq!(run.play_info_calls, vec![SENTINEL_QN, 400]);
    let node = run.node.unwrap();
    assert_eq!(node.urls, vec!["https://cdn/live/best.flv?best".to_string()]);
}

#[test]
fn end_to_end_offline_is_not_live_with_zero_play_info_calls() {
    let probe = probe_with_tiers(vec![10000]);
    let meta = meta_resp(None, None, None, None);
    let run = run_machine(init_resp(0, 42), probe, None, meta);
    assert_eq!(run.err, Some(SeamError::NotLive));
    assert_eq!(run.play_info_calls.len(), 0);
    assert_eq!(run.metadata_calls, 0);
    assert!(run.node.is_none());
}

#[test]
fn end_to_end_no_tiers_fails_after_single_probe() {
    let run = run_machine(
        init_resp(1, 5),
        probe_with_tiers(vec![]),
        None,
        meta_resp(None, None, None, None),
    );
    assert_eq!(run.err, Some(SeamError::NoTiersAdvertised));
    assert_eq!(run.play_info_calls, vec![SENTINEL_QN]);
    assert_eq!(run.metadata_calls, 0);
}

// --- the composition ---------------------------------------------------------------

#[test]
fn resolve_responses_sentinel_uses_probe_payload() {
    let probe = play_resp(vec![
        entry(vec![format_of(vec![codec(
            "/live/a.flv",
            vec![150, 400, 10000],
            vec![url_info("https://cn-1", "?1"), url_info("https://cn-2", "?2")],
        )])]),
        entry(vec![format_of(vec![codec(
            "/live/b.m3u8",
            vec![150, 400, 10000],
            vec![url_info("https://cn-3", "?3"), url_info("https://cn-4", "?4")],
        )])]),
    ]);
    let unused_refine = play_resp(vec![]);
    let meta = meta_resp(Some("t"), Some("c"), Some("u"), Some("f"));
    let (node, refined) =
        Client::resolve_responses(&init_resp(1, 42), &probe, &unused_refine, &meta).unwrap();
    assert!(!refined);
    assert_eq!(node.urls.len(), 4);
    assert_eq!(node.rid, "42");
    assert_eq!(node.title, "t");
    assert_eq!(node.cover, "c");
    assert_eq!(node.anchor, "u");
    assert_eq!(node.head, "f");
}

#[test]
fn resolve_responses_refine_uses_refine_payload() {
    let probe = probe_with_tiers(vec![150, 400]);
    let refine = play_resp(vec![entry(vec![format_of(vec![codec(
        "/live/best.flv",
        vec![400],
        vec![url_info("https://cdn", "?best")],
    )])])]);
    let meta = meta_resp(None, None, None, None);
    let (node, refined) =
        Client::resolve_responses(&init_resp(1, 9), &probe, &refine, &meta).unwrap();
    assert!(refined);
    assert_eq!(node.urls, vec!["https://cdn/live/best.flv?best".to_string()]);
}

#[test]
fn refine_reporting_zero_streams_fails_negotiation() {
    // The probe advertised a real tier, the refine then supplied nothing:
    // a platform inconsistency, not a usable-but-empty result.
    let probe = probe_with_tiers(vec![150, 400]);
    let empty_refine = play_resp(vec![]);
    assert_eq!(
        Client::extract_refine(&empty_refine),
        Err(SeamError::NoTiersAdvertised)
    );
    let r = Client::resolve_responses(
        &init_resp(1, 9),
        &probe,
        &empty_refine,
        &meta_resp(None, None, None, None),
    );
    assert!(matches!(r, Err(SeamError::NoTiersAdvertised)));
}

#[test]
fn refine_with_entries_extracts_normally() {
    let refine = play_resp(vec![entry(vec![format_of(vec![codec(
        "/p.flv",
        vec![400],
        vec![url_info("https://h", "?x")],
    )])])]);
    assert_eq!(
        Client::extract_refine(&refine),
        Ok(vec!["https://h/p.flv?x".to_string()])
    );
}

#[test]
fn resolve_responses_not_live_stops_at_room_init() {
    let r = Client::resolve_responses(
        &init_resp(0, 9),
        &probe_with_tiers(vec![10000]),
        &play_resp(vec![]),
        &meta_resp(None, None, None, None),
    );
    assert!(matches!(r, Err(SeamError::NotLive)));
}

// --- the single-endpoint provider ------------------------------------------------

#[test]
fn test_get_url() {
    let resp = obj(vec![(
        "data",
        obj(vec![("status", n(2)), ("url", s("https://play.example/96.flv"))]),
    )]);
    let r = show::get(&resp).unwrap();
    match r {
        ShowType::On(urls) => assert_eq!(urls, vec!["https://play.example/96.flv".to_string()]),
        ShowType::Off => panic!("expected the room to be on"),
    }
}

#[test]
fn show_other_status_is_off() {
    let resp = obj(vec![("data", obj(vec![("status", n(1))]))]);
    assert!(matches!(show::get(&resp), Ok(ShowType::Off)));
}

#[test]
fn show_non_numeric_status_is_schema_mismatch() {
    let resp = obj(vec![("data", obj(vec![("status", s("2"))]))]);
    assert_eq!(
        show::get(&resp).err(),
        Some(SeamError::SchemaMismatch(Field::Status))
    );
}

// --- decimal spelling --------------------------------------------------------------

#[test]
fn u64_to_string_spells_decimal() {
    assert_eq!(u64_to_string(0), "0");
    assert_eq!(u64_to_string(96), "96");
    assert_eq!(u64_to_string(10000), "10000");
    assert_eq!(u64_to_string(u64::MAX), "18446744073709551615");
}
