use mediahub::model::{
    canonical_item, clean_thumb, ensure_platform_url, is_tiktok_id, is_youtube_id, validate_client_id,
    validate_secret, validate_settings, MediaItem, Settings,
};
use mediahub::text::{clip, trim};

#[test]
fn accepts_youtube_id() {
    assert!(is_youtube_id("dQw4w9WgXcQ"));
    assert!(!is_youtube_id("short"));
    assert!(!is_youtube_id("bad id here"));
}

#[test]
fn rejects_foreign_thumb_host() {
    assert!(clean_thumb("https://i.ytimg.com/vi/dQw4w9WgXcQ/mqdefault.jpg").contains("ytimg"));
    assert!(clean_thumb("https://evil.example/a.jpg").is_empty());
    assert!(clean_thumb("http://i.ytimg.com/vi/x.jpg").is_empty());
}

#[test]
fn blocks_non_platform_links() {
    assert!(ensure_platform_url("https://www.youtube.com/shorts/dQw4w9WgXcQ").is_ok());
    assert!(ensure_platform_url("https://evil.example/watch").is_err());
    assert!(ensure_platform_url("file:///C:/secret.mp4").is_err());
}

fn item(platform: &str, id: &str, title: &str, creator: &str, url: &str, thumb: &str) -> MediaItem {
    MediaItem {
        platform: platform.to_string(),
        external_id: id.to_string(),
        title: title.to_string(),
        creator: creator.to_string(),
        url: url.to_string(),
        thumb: thumb.to_string(),
    }
}

#[test]
fn youtube_id_edges() {
    assert!(is_youtube_id("abc_DEF-123"));
    assert!(!is_youtube_id("abc_DEF-1234"));
    assert!(!is_youtube_id("abc_DEF-12"));
    assert!(!is_youtube_id("abc_DEF-12é"));
    assert!(!is_youtube_id(""));
}

#[test]
fn tiktok_id_edges() {
    assert!(is_tiktok_id("123456"));
    assert!(is_tiktok_id("1234567890123456789012345"));
    assert!(!is_tiktok_id("12345"));
    assert!(!is_tiktok_id("12345678901234567890123456"));
    assert!(!is_tiktok_id("12345a"));
    assert!(!is_tiktok_id("１２３４５６"));
}

#[test]
fn trim_and_clip() {
    assert_eq!(trim("  \t hello world \n"), "hello world");
    assert_eq!(trim("\u{a0}x\u{3000}"), "x");
    assert_eq!(trim("   "), "");
    assert_eq!(trim(trim("  a b  ")), trim("  a b  "));
    assert_eq!(clip("héllo", 2), "hé");
    assert_eq!(clip("abc", 10), "abc");
    assert_eq!(clip("abc", 0), "");
}

#[test]
fn thumbnail_hosts() {
    assert_eq!(
        clean_thumb("https://p16-sign.tiktokcdn.com/obj/abc.jpeg"),
        "https://p16-sign.tiktokcdn.com/obj/abc.jpeg"
    );
    assert_eq!(
        clean_thumb("https://p19.tiktokcdn-us.com/x.jpg"),
        "https://p19.tiktokcdn-us.com/x.jpg"
    );
    assert_eq!(clean_thumb("https://I.YTIMG.COM/vi/a.jpg"), "https://i.ytimg.com/vi/a.jpg");
    assert_eq!(clean_thumb("https://ytimg.com.evil.example/a.jpg"), "");
    assert_eq!(clean_thumb("not a url"), "");
    assert_eq!(clean_thumb(""), "");
}

#[test]
fn platform_links() {
    assert_eq!(
        ensure_platform_url("https://vm.tiktok.com/ZMabc/"),
        Ok("https://vm.tiktok.com/ZMabc/".to_string())
    );
    assert_eq!(
        ensure_platform_url("https://youtu.be/dQw4w9WgXcQ"),
        Ok("https://youtu.be/dQw4w9WgXcQ".to_string())
    );
    assert_eq!(ensure_platform_url("http://www.youtube.com/"), Err("Ungültiger Link.".to_string()));
    assert_eq!(ensure_platform_url("::"), Err("Ungültiger Link.".to_string()));
    assert_eq!(
        ensure_platform_url("https://music.youtube.com/"),
        Err("Dieser Link gehört nicht zu YouTube oder TikTok.".to_string())
    );
}

#[test]
fn canonical_youtube_item() {
    let r = canonical_item(&item(
        "youtube",
        "dQw4w9WgXcQ",
        "  Never gonna  ",
        " Rick ",
        "https://ignored.example/",
        "https://i.ytimg.com/vi/dQw4w9WgXcQ/mqdefault.jpg",
    ))
    .unwrap();
    assert_eq!(r.platform, "youtube");
    assert_eq!(r.title, "Never gonna");
    assert_eq!(r.creator, "Rick");
    assert_eq!(r.url, "https://www.youtube.com/shorts/dQw4w9WgXcQ");
    assert_eq!(r.thumb, "https://i.ytimg.com/vi/dQw4w9WgXcQ/mqdefault.jpg");
}

#[test]
fn canonical_item_defaults_and_limits() {
    let long = "x".repeat(300);
    let r = canonical_item(&item("youtube", "dQw4w9WgXcQ", "   ", &long, "", "http://i.ytimg.com/a.jpg"))
        .unwrap();
    assert_eq!(r.title, "Video");
    assert_eq!(r.creator.chars().count(), 80);
    assert_eq!(r.thumb, "");
    let r = canonical_item(&item("youtube", "dQw4w9WgXcQ", &long, "", "", "")).unwrap();
    assert_eq!(r.title.chars().count(), 180);
}

#[test]
fn canonical_tiktok_item() {
    let r = canonical_item(&item(
        "tiktok",
        "7301234567890123456",
        "clip",
        "me",
        "https://www.tiktok.com/@me/video/7301234567890123456",
        "",
    ))
    .unwrap();
    assert_eq!(r.url, "https://www.tiktok.com/@me/video/7301234567890123456");
    let r = canonical_item(&item("tiktok", "7301234567890123456", "clip", "me", "https://evil.example/", ""))
        .unwrap();
    assert_eq!(r.url, "https://www.tiktok.com/video/7301234567890123456");
    assert_eq!(
        canonical_item(&item("tiktok", "12ab", "t", "c", "", "")),
        Err("Ungültige Video-ID.".to_string())
    );
}

#[test]
fn canonical_local_item() {
    let r = canonical_item(&item("local", "42", "Film", "", "C:\\Videos\\film.mp4", "https://i.ytimg.com/a.jpg"))
        .unwrap();
    assert_eq!(r.url, "C:\\Videos\\film.mp4");
    assert_eq!(r.thumb, "");
    assert_eq!(canonical_item(&item("local", "", "t", "", "p", "")), Err("Ungültiger Eintrag.".to_string()));
    assert_eq!(
        canonical_item(&item("local", "123456789012345678901", "t", "", "p", "")),
        Err("Ungültiger Eintrag.".to_string())
    );
    assert_eq!(canonical_item(&item("local", "4x", "t", "", "p", "")), Err("Ungültiger Eintrag.".to_string()));
    assert_eq!(
        canonical_item(&item("local", "4", "t", "", "a\0b", "")),
        Err("Ungültiger Dateipfad.".to_string())
    );
    assert_eq!(
        canonical_item(&item("local", "4", "t", "", &"p".repeat(1025), "")),
        Err("Ungültiger Dateipfad.".to_string())
    );
    assert_eq!(
        canonical_item(&item("vimeo", "4", "t", "", "p", "")),
        Err("Unbekannte Plattform.".to_string())
    );
}

#[test]
fn client_id_rules() {
    assert_eq!(validate_client_id("  abc-123.apps_x  "), Ok("abc-123.apps_x".to_string()));
    assert_eq!(validate_client_id("   "), Ok(String::new()));
    assert_eq!(validate_client_id(&"a".repeat(200)), Ok("a".repeat(200)));
    assert_eq!(validate_client_id(&"a".repeat(201)), Err("Client-ID ist zu lang.".to_string()));
    assert_eq!(
        validate_client_id("abc def"),
        Err("Client-ID enthält ungültige Zeichen.".to_string())
    );
    let once = validate_client_id(" id.1 ").unwrap();
    assert_eq!(validate_client_id(&once), Ok(once.clone()));
}

#[test]
fn secret_rules() {
    assert_eq!(validate_secret("  s3cr3t!#  "), Ok("s3cr3t!#".to_string()));
    assert_eq!(validate_secret(""), Ok(String::new()));
    assert_eq!(validate_secret("a b"), Err("Secret ist ungültig.".to_string()));
    assert_eq!(validate_secret("a\u{7}b"), Err("Secret ist ungültig.".to_string()));
    assert_eq!(validate_secret(&"s".repeat(301)), Err("Secret ist ungültig.".to_string()));
    assert_eq!(validate_secret(&"s".repeat(300)), Ok("s".repeat(300)));
}

#[test]
fn settings_rules() {
    let d = Settings::default();
    assert_eq!(d.performance_mode, "sparsam");
    assert_eq!(d.volume, 80);
    assert!(d.autoplay && d.history_enabled && !d.animations);
    assert_eq!(validate_settings(d.clone()), Ok(d.clone()));

    let mut s = d.clone();
    s.youtube_client_id = "  my-id  ".to_string();
    let v = validate_settings(s).unwrap();
    assert_eq!(v.youtube_client_id, "my-id");
    assert_eq!(validate_settings(v.clone()), Ok(v));

    let mut s = d.clone();
    s.performance_mode = "turbo".to_string();
    assert_eq!(validate_settings(s), Err("Unbekannter Leistungsmodus.".to_string()));
    let mut s = d.clone();
    s.language = "fr".to_string();
    assert_eq!(validate_settings(s), Err("Unbekannte Sprache.".to_string()));
    let mut s = d.clone();
    s.theme = "bunt".to_string();
    assert_eq!(validate_settings(s), Err("Unbekanntes Design.".to_string()));
    let mut s = d.clone();
    s.start_page = "home".to_string();
    assert_eq!(validate_settings(s), Err("Unbekannte Startseite.".to_string()));
    let mut s = d.clone();
    s.tiktok_client_key = "bad key".to_string();
    assert_eq!(validate_settings(s), Err("Client-ID enthält ungültige Zeichen.".to_string()));
}

#[test]
fn canonical_item_twice_changes_nothing() {
    let once = canonical_item(&item(
        "tiktok",
        "7301234567890123456",
        "\u{3000} clip \u{2009}",
        "\u{a0}me",
        "https://www.tiktok.com/@me/video/7301234567890123456",
        "https://p16-sign.tiktokcdn.com/cover.jpg",
    ))
    .unwrap();
    assert_eq!(once.title, "clip");
    assert_eq!(once.creator, "me");
    let twice = canonical_item(&once).unwrap();
    assert_eq!(twice, once);
}
