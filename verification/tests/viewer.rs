use mediahub::viewer::{
    check_login_platform, feed_target, logged_in, login_target, login_window_title,
    navigation_step, nudge_script, player_user_agent, NavigationStep, DESKTOP_UA, MOBILE_UA,
};

#[test]
fn player_addresses() {
    let (p, u) = feed_target("https://www.tiktok.com/@me/video/1").unwrap();
    assert_eq!(p, "tiktok");
    assert_eq!(u.host.as_deref(), Some("www.tiktok.com"));
    let (p, _) = feed_target("https://m.youtube.com/shorts/x").unwrap();
    assert_eq!(p, "youtube");
    assert_eq!(feed_target("https://eviltiktok.example/").unwrap_err(), "Diese Adresse ist nicht erlaubt.");
    assert_eq!(feed_target("https://example.com/").unwrap_err(), "Diese Adresse ist nicht erlaubt.");
    assert_eq!(feed_target("nope").unwrap_err(), "Ungültige Adresse.");
    assert_eq!(player_user_agent("tiktok"), DESKTOP_UA);
    assert_eq!(player_user_agent("youtube"), MOBILE_UA);
}

#[test]
fn login_window_rules() {
    assert!(logged_in("youtube", "www.youtube.com", "/feed"));
    assert!(!logged_in("youtube", "www.youtube.com", "/signin"));
    assert!(!logged_in("youtube", "accounts.google.com", "/"));
    assert!(logged_in("tiktok", "www.tiktok.com", "/foryou"));
    assert!(!logged_in("tiktok", "www.tiktok.com", "/login/phone"));
    assert!(!logged_in("vimeo", "vimeo.com", "/"));
    assert_eq!(
        navigation_step("youtube", "accounts.google.com", "/signin", false),
        NavigationStep { watched: true, finish: false }
    );
    assert_eq!(
        navigation_step("youtube", "www.youtube.com", "/", true),
        NavigationStep { watched: false, finish: true }
    );
    assert_eq!(
        navigation_step("youtube", "www.youtube.com", "/", false),
        NavigationStep { watched: false, finish: false }
    );
    assert_eq!(login_window_title("tiktok"), "Bei TikTok anmelden");
    assert_eq!(login_window_title("youtube"), "Mit Google anmelden");
    assert_eq!(check_login_platform("x"), Err("Unbekannte Plattform.".to_string()));
    assert_eq!(login_target("tiktok").unwrap().href, "https://www.tiktok.com/login");
    assert_eq!(login_target("youtube").unwrap().host.as_deref(), Some("accounts.google.com"));
    assert_eq!(login_target("x").unwrap_err(), "Unbekannte Plattform.");
}

#[test]
fn nudge_scripts() {
    assert_eq!(nudge_script(-5), "window.__mhStep && window.__mhStep(-1)");
    assert_eq!(nudge_script(0), "window.__mhStep && window.__mhStep(1)");
}
