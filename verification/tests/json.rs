use mediahub::json::{parse_json, Json};
use mediahub::net::{read_body, NetFail};
use mediahub::secrets::Update;
use mediahub::session::{
    access_step, clear_updates, feed_start, first_call_step, second_call_result, token_fields_of,
    token_updates, AccessStep, CallStep, FeedStart, Platform, TokenFields,
};

fn parse(text: &str) -> Json {
    parse_json(text.as_bytes()).expect("json")
}

#[test]
fn parses_json_bodies() {
    assert!(parse_json(b"not json").is_none());
    match parse("{\"a\": [1, \"x\", null, true]}") {
        Json::Object(fields) => {
            assert_eq!(fields.len(), 1);
            assert_eq!(fields[0].0, "a");
            match &fields[0].1 {
                Json::List(items) => {
                    assert!(matches!(&items[0], Json::Number(n) if n == "1"));
                    assert!(matches!(&items[1], Json::Text(t) if t == "x"));
                    assert!(matches!(items[2], Json::Null));
                    assert!(matches!(items[3], Json::Bool(true)));
                }
                other => panic!("{:?}", other),
            }
        }
        other => panic!("{:?}", other),
    }
}

#[test]
fn reads_answer_bodies() {
    assert!(matches!(read_body(200, Some(2_000_000), Some(b"{}")), Err(NetFail::Other)));
    assert!(matches!(read_body(401, None, Some(b"{}")), Err(NetFail::Denied)));
    assert!(matches!(read_body(200, None, None), Err(NetFail::Offline)));
    assert!(matches!(read_body(500, None, Some(b"{}")), Err(NetFail::Other)));
    assert!(matches!(read_body(200, None, Some(b"<html>")), Err(NetFail::Other)));
    assert!(matches!(read_body(200, Some(2), Some(b"{}")), Ok(Json::Object(_))));
}

#[test]
fn token_answer_fields() {
    let yt = parse("{\"access_token\":\"A\",\"expires_in\":3599,\"refresh_token\":\"R\"}");
    assert_eq!(
        token_fields_of(Platform::YouTube, &yt),
        TokenFields { access_token: Some("A".into()), expires_in: Some(3599), refresh_token: Some("R".into()) }
    );
    let tt = parse("{\"data\":{\"access_token\":\"B\",\"expires_in\":86400.5}}");
    assert_eq!(
        token_fields_of(Platform::TikTok, &tt),
        TokenFields { access_token: Some("B".into()), expires_in: None, refresh_token: None }
    );
    let flat = parse("{\"access_token\":\"C\",\"expires_in\":60}");
    assert_eq!(token_fields_of(Platform::TikTok, &flat).access_token, Some("C".to_string()));
    assert_eq!(token_fields_of(Platform::YouTube, &tt).access_token, None);
}

#[test]
fn token_writes_in_order() {
    let t = TokenFields { access_token: Some("A".into()), expires_in: Some(10), refresh_token: Some("R".into()) };
    assert_eq!(
        token_updates(Platform::YouTube, &t, 1000),
        Some(vec![
            Update::Put("youtube_access".into(), "A".into()),
            Update::Put("youtube_refresh".into(), "R".into()),
            Update::Put("youtube_expiry".into(), "1030".into()),
        ])
    );
    let t = TokenFields { access_token: Some("A".into()), expires_in: None, refresh_token: Some(String::new()) };
    assert_eq!(
        token_updates(Platform::TikTok, &t, 0),
        Some(vec![Update::Put("tiktok_access".into(), "A".into()), Update::Put("tiktok_expiry".into(), "3570".into())])
    );
    let t = TokenFields { access_token: None, expires_in: None, refresh_token: Some("R".into()) };
    assert_eq!(token_updates(Platform::TikTok, &t, 0), None);
    assert_eq!(
        clear_updates(Platform::TikTok),
        vec![
            Update::Remove("tiktok_access".into()),
            Update::Remove("tiktok_refresh".into()),
            Update::Remove("tiktok_expiry".into()),
        ]
    );
}

#[test]
fn call_steps() {
    assert!(matches!(access_step(Ok("t".into())), AccessStep::Use(t) if t == "t"));
    assert!(matches!(access_step(Err(())), AccessStep::Renew));
    assert!(matches!(first_call_step(Platform::YouTube, Err(NetFail::Denied)), CallStep::Renew));
    assert!(matches!(first_call_step(Platform::YouTube, Ok(Json::Null)), CallStep::Done(Ok(Json::Null))));
    match first_call_step(Platform::TikTok, Err(NetFail::Offline)) {
        CallStep::Done(Err(m)) => assert_eq!(m, "Die Verbindung zu TikTok ist momentan nicht verfügbar."),
        _ => panic!("expected a message"),
    }
    match second_call_result(Platform::YouTube, Err(NetFail::Denied)) {
        Err(m) => assert_eq!(m, "YouTube-Sitzung abgelaufen. Bitte erneut verbinden."),
        Ok(_) => panic!("expected a message"),
    }
    assert!(matches!(feed_start(false), FeedStart::Empty));
    assert!(matches!(feed_start(true), FeedStart::Fetch));
}

#[test]
fn feed_answers() {
    let v = parse(
        "{\"items\":[{\"id\":{\"videoId\":\"dQw4w9WgXcQ\"},\"snippet\":{\"title\":\"T\",\"channelTitle\":\"C\",\"thumbnails\":{\"medium\":{\"url\":\"https://i.ytimg.com/vi/dQw4w9WgXcQ/mqdefault.jpg\"}}}}]}",
    );
    let entries = mediahub::youtube::search_entries(&v).unwrap();
    assert_eq!(entries.len(), 1);
    assert_eq!(entries[0].video_id.as_deref(), Some("dQw4w9WgXcQ"));
    assert_eq!(entries[0].channel_title.as_deref(), Some("C"));
    assert_eq!(entries[0].thumbnail.as_deref(), Some("https://i.ytimg.com/vi/dQw4w9WgXcQ/mqdefault.jpg"));
    assert!(mediahub::youtube::search_entries(&parse("{\"items\":3}")).is_none());
    let subs = mediahub::youtube::subscription_entries(&parse(
        "{\"items\":[{\"snippet\":{\"title\":\"K\",\"resourceId\":{\"channelId\":\"UC1\"}}}]}",
    ))
    .unwrap();
    assert_eq!(subs[0].channel_id.as_deref(), Some("UC1"));
    let t = parse("{\"error\":{\"code\":\"ok\"},\"data\":{\"videos\":[{\"id\":\"1234567\",\"title\":\"x\"}]}}");
    assert_eq!(mediahub::tiktok::error_code_of(&t).as_deref(), Some("ok"));
    let videos = mediahub::tiktok::videos_of(&t).unwrap();
    assert_eq!(videos[0].id.as_deref(), Some("1234567"));
    assert_eq!(videos[0].share_url, None);
    assert!(mediahub::tiktok::creator_needed(&Some("ok".into()), true));
    assert!(!mediahub::tiktok::creator_needed(&Some("denied".into()), true));
    assert!(mediahub::tiktok::creator_needed(&None, true));
    assert!(!mediahub::tiktok::creator_needed(&None, false));
    let profile = parse("{\"items\":[{\"snippet\":{\"title\":\"Chan\",\"customUrl\":\"@chan\"}}]}");
    assert_eq!(mediahub::youtube::profile_from(&profile), ("Chan".to_string(), "@chan".to_string()));
    assert_eq!(mediahub::youtube::profile_from(&Json::Null), ("YouTube".to_string(), String::new()));
    let user = parse("{\"data\":{\"user\":{\"display_name\":\"Ann\"}}}");
    assert_eq!(mediahub::tiktok::profile_from(&user), ("Ann".to_string(), String::new()));
}
