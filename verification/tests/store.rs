use mediahub::store::{favorite_toggle, FavoriteChange};
use mediahub::model::Settings;
use mediahub::session::Platform;
use mediahub::store::{
    bool_str, check_add_local, check_media_path, media_entry, profile_entries, profile_keys,
    seed_entries, settings_entries, settings_from_record, settings_record, stored_flag,
    StoredSettings,
};

fn record_from(pairs: &[(String, String)]) -> StoredSettings {
    let get = |k: &str| {
        pairs.iter().find(|p| p.0 == k).map(|p| p.1.clone()).unwrap_or_default()
    };
    StoredSettings {
        performance_mode: get("performance_mode"),
        language: get("language"),
        theme: get("theme"),
        animations: get("animations"),
        autoplay: get("autoplay"),
        volume: get("volume"),
        start_page: get("start_page"),
        history_enabled: get("history_enabled"),
        youtube_client_id: get("youtube_client_id"),
        tiktok_client_key: get("tiktok_client_key"),
    }
}

#[test]
fn saved_settings_read_back() {
    let mut s = Settings::default();
    s.performance_mode = "maximal".to_string();
    s.language = "en".to_string();
    s.theme = "hell".to_string();
    s.animations = true;
    s.autoplay = false;
    s.volume = 7;
    s.start_page = "shorts".to_string();
    s.history_enabled = false;
    s.youtube_client_id = " yt.id ".to_string();
    s.tiktok_client_key = "key_1".to_string();
    s.tiktok_secret_set = true;
    let pairs = settings_entries(s.clone()).unwrap();
    assert_eq!(pairs.len(), 10);
    assert_eq!(pairs[5], ("volume".to_string(), "7".to_string()));
    assert_eq!(pairs[3], ("animations".to_string(), "true".to_string()));
    let back = settings_from_record(&record_from(&pairs), true);
    let mut expected = s.clone();
    expected.youtube_client_id = "yt.id".to_string();
    assert_eq!(back, expected);
}

#[test]
fn refused_settings_write_nothing() {
    let mut s = Settings::default();
    s.theme = "neon".to_string();
    assert_eq!(settings_entries(s), Err("Unbekanntes Design.".to_string()));
}

#[test]
fn empty_record_reads_as_defaults() {
    let empty = record_from(&[]);
    let s = settings_from_record(&empty, false);
    let mut expected = Settings::default();
    expected.animations = true;
    assert_eq!(s, expected);
    let mut odd = record_from(&[]);
    odd.volume = "300".to_string();
    odd.autoplay = "false".to_string();
    let s = settings_from_record(&odd, false);
    assert_eq!(s.volume, 80);
    assert!(!s.autoplay);
}

#[test]
fn seeded_database_reads_defaults() {
    let seed = seed_entries();
    assert_eq!(seed.len(), 14);
    assert_eq!(seed[13], ("tiktok_handle".to_string(), String::new()));
    assert_eq!(settings_from_record(&record_from(&seed), false), Settings::default());
    let d = Settings::default();
    assert_eq!(settings_from_record(&settings_record(&d), false), d);
}

#[test]
fn flags() {
    assert_eq!(bool_str(true), "true");
    assert_eq!(bool_str(false), "false");
    assert!(stored_flag("true"));
    assert!(stored_flag(""));
    assert!(!stored_flag("false"));
}

#[test]
fn profile_labels() {
    assert_eq!(
        profile_keys(Platform::YouTube),
        ("youtube_display_name".to_string(), "youtube_handle".to_string())
    );
    let e = profile_entries(Platform::TikTok, &"n".repeat(90), "@me");
    assert_eq!(e[0], ("tiktok_display_name".to_string(), "n".repeat(80)));
    assert_eq!(e[1], ("tiktok_handle".to_string(), "@me".to_string()));
}

#[test]
fn local_media_rules() {
    assert_eq!(check_add_local(41, 0), Err("Zu viele Dateien auf einmal.".to_string()));
    assert_eq!(check_add_local(40, 501), Err("Die Medienliste ist voll.".to_string()));
    assert_eq!(check_add_local(40, 500), Ok(()));
    assert_eq!(check_media_path("C:\\a.mp4"), Ok(()));
    assert_eq!(check_media_path("a\0b"), Err("Ungültiger Dateipfad.".to_string()));
    assert_eq!(
        media_entry("\\\\?\\C:\\Videos\\Film.MP4", Some("MP4"), Some("Film")),
        Ok(("C:\\Videos\\Film.MP4".to_string(), "Film".to_string()))
    );
    assert_eq!(
        media_entry("/home/u/clip.webm", Some("webm"), None),
        Ok(("/home/u/clip.webm".to_string(), "Video".to_string()))
    );
    assert_eq!(
        media_entry("/home/u/clip.avi", Some("avi"), Some("clip")),
        Err("Erlaubt sind mp4, webm und m4v.".to_string())
    );
    assert_eq!(
        media_entry("/home/u/clip", None, Some("clip")),
        Err("Erlaubt sind mp4, webm und m4v.".to_string())
    );
}

#[test]
fn favorite_toggles() {
    assert_eq!(favorite_toggle(true), (FavoriteChange::Remove, false));
    assert_eq!(favorite_toggle(false), (FavoriteChange::Add, true));
}
