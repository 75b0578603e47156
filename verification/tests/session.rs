use mediahub::model::Account;
use mediahub::net::NetFail;
use mediahub::secrets::{deletion_outcome, found_secret, secret_from_lookup, write_outcome, StoreFailure};
use mediahub::session::{
    access_if_fresh, account_view, alive_from, expiry_for, key_for, parse_platform,
    refresh_failure, require_client, seconds_or_zero, secret_or_missing, youtube_code_form, tiktok_refresh_form, token_endpoint, Platform,
};
use mediahub::text::{decimal, parse_i64, parse_u8, signed_decimal};

#[test]
fn access_freshness() {
    let a = Some("tok".to_string());
    assert_eq!(access_if_fresh(a.clone(), Some("1021".to_string()), 1000), Ok("tok".to_string()));
    assert_eq!(access_if_fresh(a.clone(), Some("1020".to_string()), 1000), Err(()));
    assert_eq!(access_if_fresh(a.clone(), Some("soon".to_string()), -100), Ok("tok".to_string()));
    assert_eq!(access_if_fresh(a, None, 0), Err(()));
    assert_eq!(access_if_fresh(None, Some("9999".to_string()), 0), Err(()));
}

#[test]
fn session_liveness() {
    assert!(alive_from(true, None, 0));
    assert!(alive_from(false, Some("1016".to_string()), 1000));
    assert!(!alive_from(false, Some("1015".to_string()), 1000));
    assert!(!alive_from(false, None, 1000));
}

#[test]
fn token_expiry_rules() {
    assert_eq!(expiry_for(1000, None), 1000 + 3600 - 30);
    assert_eq!(expiry_for(1000, Some(10)), 1000 + 60 - 30);
    assert_eq!(expiry_for(1000, Some(7200)), 1000 + 7200 - 30);
    assert_eq!(parse_i64(&signed_decimal(expiry_for(-5000, Some(-3)))), Some(-5000 + 30));
}

#[test]
fn account_labels() {
    let label = Account { connected: false, display_name: "Me".to_string(), handle: "@me".to_string() };
    let shown = account_view(label.clone(), true);
    assert_eq!(shown, Account { connected: true, display_name: "Me".to_string(), handle: "@me".to_string() });
    let hidden = account_view(label, false);
    assert_eq!(hidden, Account { connected: false, display_name: String::new(), handle: String::new() });
}

#[test]
fn refresh_failures() {
    assert_eq!(
        refresh_failure(Platform::YouTube, NetFail::Offline),
        (false, "Die Verbindung zu YouTube ist momentan nicht verfügbar.".to_string())
    );
    assert_eq!(
        refresh_failure(Platform::TikTok, NetFail::Other),
        (true, "TikTok-Sitzung abgelaufen. Bitte erneut verbinden.".to_string())
    );
    assert_eq!(
        refresh_failure(Platform::YouTube, NetFail::Denied),
        (true, "YouTube-Sitzung abgelaufen. Bitte erneut verbinden.".to_string())
    );
}

#[test]
fn platform_names_and_keys() {
    assert_eq!(parse_platform("youtube"), Ok(Platform::YouTube));
    assert_eq!(parse_platform("tiktok"), Ok(Platform::TikTok));
    assert_eq!(parse_platform("vimeo"), Err("Unbekannte Plattform.".to_string()));
    assert_eq!(key_for(Platform::TikTok, "expiry"), "tiktok_expiry");
    assert_eq!(token_endpoint(Platform::YouTube), "https://oauth2.googleapis.com/token");
    assert_eq!(
        require_client(Platform::TikTok, ""),
        Err("TikTok-Client-Key fehlt. Trag ihn in den Einstellungen ein.".to_string())
    );
    assert_eq!(require_client(Platform::YouTube, "id"), Ok(()));
}

#[test]
fn token_forms() {
    let f = youtube_code_form("c0de", "cid", "ver");
    assert_eq!(f[0], ("code".to_string(), "c0de".to_string()));
    assert_eq!(f[2], ("redirect_uri".to_string(), "http://127.0.0.1:38947/callback".to_string()));
    assert_eq!(f[4], ("code_verifier".to_string(), "ver".to_string()));
    let f = tiktok_refresh_form("k", "s", "r");
    assert_eq!(f.len(), 4);
    assert_eq!(f[2], ("grant_type".to_string(), "refresh_token".to_string()));
}

#[test]
fn store_lookup_meaning() {
    assert_eq!(secret_from_lookup(Ok("v".to_string())), Ok(Some("v".to_string())));
    assert_eq!(secret_from_lookup(Err(StoreFailure::NoEntry)), Ok(None));
    assert_eq!(
        secret_from_lookup(Err(StoreFailure::Unavailable)),
        Err("Sicherer Speicher nicht verfügbar.".to_string())
    );
    assert_eq!(deletion_outcome(Err(StoreFailure::NoEntry)), Ok(()));
    assert_eq!(
        deletion_outcome(Err(StoreFailure::Unavailable)),
        Err("Sicherer Speicher nicht verfügbar.".to_string())
    );
}

#[test]
fn number_text() {
    assert_eq!(decimal(0), "0");
    assert_eq!(decimal(38947), "38947");
    assert_eq!(signed_decimal(i64::MIN), "-9223372036854775808");
    assert_eq!(parse_u8("255"), Some(255));
    assert_eq!(parse_u8("+7"), Some(7));
    assert_eq!(parse_u8("256"), None);
    assert_eq!(parse_u8("-1"), None);
    assert_eq!(parse_u8(""), None);
    assert_eq!(parse_u8("+"), None);
    assert_eq!(parse_i64("-9223372036854775808"), Some(i64::MIN));
    assert_eq!(parse_i64("9223372036854775807"), Some(i64::MAX));
    assert_eq!(parse_i64("9223372036854775808"), None);
    assert_eq!(parse_i64("-"), None);
    assert_eq!(parse_i64(" 1"), None);
    assert_eq!(parse_i64("0012"), Some(12));
}

#[test]
fn store_answers_mapped() {
    assert_eq!(write_outcome(Ok(())), Ok(()));
    assert_eq!(write_outcome(Err(StoreFailure::NoEntry)), Err("Sicherer Speicher nicht verfügbar.".to_string()));
    assert!(found_secret(&Ok(Some("x".to_string()))));
    assert!(!found_secret(&Ok(None)));
    assert!(!found_secret(&Err("e".to_string())));
    assert_eq!(secret_or_missing(Ok(Some("s".to_string())), "fehlt"), Ok("s".to_string()));
    assert_eq!(secret_or_missing(Ok(None), "fehlt"), Err("fehlt".to_string()));
    assert_eq!(secret_or_missing(Err("kaputt".to_string()), "fehlt"), Err("kaputt".to_string()));
}

#[test]
fn clock_seconds() {
    assert_eq!(seconds_or_zero(Some(1_700_000_000)), 1_700_000_000);
    assert_eq!(seconds_or_zero(None), 0);
    assert_eq!(seconds_or_zero(Some(u64::MAX)), -1);
}
