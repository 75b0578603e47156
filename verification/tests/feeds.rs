use mediahub::tiktok::TiktokVideo;
use mediahub::youtube::{SubscriptionEntry, YoutubeSearchEntry};
use mediahub::net::{check_response_body, check_response_head, form_body, NetFail};
use mediahub::oauth::Pkce;

fn s(v: &str) -> Option<String> {
    Some(v.to_string())
}

#[test]
fn youtube_feed_keeps_valid_videos() {
    let mut list = vec![
        YoutubeSearchEntry { video_id: None, title: s("x"), channel_title: None, thumbnail: None },
        YoutubeSearchEntry { video_id: s("bad"), title: None, channel_title: None, thumbnail: None },
        YoutubeSearchEntry {
            video_id: s("dQw4w9WgXcQ"),
            title: None,
            channel_title: s("Rick"),
            thumbnail: s("https://i.ytimg.com/vi/dQw4w9WgXcQ/mqdefault.jpg"),
        },
    ];
    for _ in 0..10 {
        list.push(YoutubeSearchEntry { video_id: s("abcdefghijk"), title: s("t"), channel_title: None, thumbnail: None });
    }
    let items = mediahub::youtube::feed_items(Some(list));
    assert_eq!(items.len(), 6);
    assert_eq!(items[0].title, "Video");
    assert_eq!(items[0].creator, "Rick");
    assert_eq!(items[0].url, "https://www.youtube.com/shorts/dQw4w9WgXcQ");
    assert_eq!(items[0].thumb, "https://i.ytimg.com/vi/dQw4w9WgXcQ/mqdefault.jpg");
    assert_eq!(items[1].external_id, "abcdefghijk");
    assert!(mediahub::youtube::feed_items(None).is_empty());
}

#[test]
fn subscriptions_keep_usable_channels() {
    let mut list = vec![
        SubscriptionEntry { title: s("A"), channel_id: s("UC123") },
        SubscriptionEntry { title: None, channel_id: s("UC456") },
        SubscriptionEntry { title: s("B"), channel_id: None },
        SubscriptionEntry { title: s("C"), channel_id: Some("x".repeat(65)) },
    ];
    for i in 0..30 {
        list.push(SubscriptionEntry { title: None, channel_id: Some(format!("id{i}")) });
    }
    let ch = mediahub::youtube::subscription_channels(Some(list));
    assert_eq!(ch.len(), 18);
    assert_eq!(ch[0].name, "A");
    assert_eq!(ch[0].url, "https://www.youtube.com/channel/UC123");
    assert_eq!(ch[1].name, "Kanal");
    assert_eq!(ch[1].handle, "");
    assert!(mediahub::youtube::subscription_channels(None).is_empty());
}

#[test]
fn tiktok_feed_rules() {
    let list = vec![
        TiktokVideo {
            id: s("7301234567890123456"),
            title: None,
            share_url: s("https://www.tiktok.com/@me/video/7301234567890123456"),
            cover_image_url: s("https://p16.tiktokcdn.com/a.jpg"),
        },
        TiktokVideo { id: s("12"), title: None, share_url: None, cover_image_url: None },
        TiktokVideo { id: s("1234567"), title: s("t"), share_url: s("https://evil.example/"), cover_image_url: None },
    ];
    let items = mediahub::tiktok::feed_items(s("ok"), Some(list), "Me").unwrap();
    assert_eq!(items.len(), 2);
    assert_eq!(items[0].title, "Video");
    assert_eq!(items[0].creator, "Me");
    assert_eq!(items[0].url, "https://www.tiktok.com/@me/video/7301234567890123456");
    assert_eq!(items[0].thumb, "https://p16.tiktokcdn.com/a.jpg");
    assert_eq!(items[1].url, "https://www.tiktok.com/video/1234567");
    assert_eq!(
        mediahub::tiktok::feed_items(s("access_token_invalid"), None, "Me"),
        Err("Die Verbindung zu TikTok ist momentan nicht verfügbar.".to_string())
    );
    assert_eq!(mediahub::tiktok::feed_items(None, None, "Me"), Ok(vec![]));
}

#[test]
fn profiles() {
    assert_eq!(mediahub::youtube::profile_labels(None, None), ("YouTube".to_string(), String::new()));
    assert_eq!(mediahub::youtube::profile_labels(s("Chan"), s("@chan")), ("Chan".to_string(), "@chan".to_string()));
    assert_eq!(mediahub::tiktok::profile_labels(None), ("TikTok".to_string(), String::new()));
    assert_eq!(mediahub::tiktok::profile_labels(Some("n".repeat(100))).0, "n".repeat(80));
}

#[test]
fn login_addresses() {
    let pkce = Pkce { verifier: "v".to_string(), challenge: "ch/+".to_string(), state: "st 1".to_string() };
    assert_eq!(
        mediahub::youtube::auth_url("abc.apps", &pkce),
        "https://accounts.google.com/o/oauth2/v2/auth?client_id=abc.apps&redirect_uri=http%3A%2F%2F127.0.0.1%3A38947%2Fcallback&response_type=code&scope=https%3A%2F%2Fwww.googleapis.com%2Fauth%2Fyoutube.readonly&state=st+1&code_challenge=ch%2F%2B&code_challenge_method=S256&access_type=offline&prompt=consent"
    );
    let t = mediahub::tiktok::auth_url("key", &pkce);
    assert!(t.starts_with("https://www.tiktok.com/v2/auth/authorize/?client_key=key&response_type=code&scope=user.info.basic%2Cvideo.list&"));
    let parsed = url::Url::parse(&t).unwrap();
    let pairs: Vec<(String, String)> = parsed.query_pairs().map(|(k, v)| (k.into_owned(), v.into_owned())).collect();
    assert_eq!(pairs[4], ("state".to_string(), "st 1".to_string()));
}

#[test]
fn response_checks() {
    assert_eq!(check_response_head(200, Some(1_000_001)), Some(NetFail::Other));
    assert_eq!(check_response_head(401, Some(10)), Some(NetFail::Denied));
    assert_eq!(check_response_head(403, None), Some(NetFail::Denied));
    assert_eq!(check_response_head(500, None), None);
    assert_eq!(check_response_body(200, 1_000_001), Some(NetFail::Other));
    assert_eq!(check_response_body(404, 10), Some(NetFail::Other));
    assert_eq!(check_response_body(204, 0), None);
    assert_eq!(NetFail::Denied.youtube(), "YouTube-Sitzung abgelaufen. Bitte erneut verbinden.");
    assert_eq!(NetFail::Other.tiktok(), "Die Verbindung zu TikTok ist momentan nicht verfügbar.");
    assert_eq!(
        form_body(&vec![("a".to_string(), "b c".to_string()), ("d".to_string(), "é&".to_string())]),
        "a=b+c&d=%C3%A9%26"
    );
}
