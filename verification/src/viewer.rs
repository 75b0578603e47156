//! Which addresses the embedded player and the login window may show, and
//! when a login in the window counts as done.

use vstd::prelude::*;

use crate::model::unknown_platform_msg;
use crate::text::{
    contains_str, ends_with, has_infix, has_suffix, join, owned, signed_decimal,
    signed_decimal_spec, str_eq,
};
use crate::urls::{host_or_empty, parse_url, url_parse, url_parts_view, UrlParts, UrlPartsView};

verus! {

/// Hosts that the player may show for a platform.
pub open spec fn player_host(platform: Seq<char>, host: Seq<char>) -> bool {
    if platform == "youtube"@ {
        host == "www.youtube.com"@ || host == "m.youtube.com"@ || host == "youtube.com"@ || host
            == "youtu.be"@
    } else if platform == "tiktok"@ {
        host == "www.tiktok.com"@ || host == "tiktok.com"@ || has_suffix(host, ".tiktok.com"@)
    } else {
        false
    }
}

/// Whether the player may show `url` for `platform`.
pub fn host_ok(url: &UrlParts, platform: &str) -> (r: bool)
    ensures
        r == player_host(platform@, host_or_empty(url_parts_view(*url))),
{
    proof {
        reveal_strlit("");
        assert(""@ =~= Seq::<char>::empty());
    }
    let host = match &url.host {
        Some(h) => h.as_str(),
        None => "",
    };
    if str_eq(platform, "youtube") {
        str_eq(host, "www.youtube.com") || str_eq(host, "m.youtube.com") || str_eq(
            host,
            "youtube.com",
        ) || str_eq(host, "youtu.be")
    } else if str_eq(platform, "tiktok") {
        str_eq(host, "www.tiktok.com") || str_eq(host, "tiktok.com") || ends_with(
            host,
            ".tiktok.com",
        )
    } else {
        false
    }
}

pub open spec fn bad_address_msg() -> Seq<char> {
    "Ungültige Adresse."@
}

pub open spec fn address_not_allowed_msg() -> Seq<char> {
    "Diese Adresse ist nicht erlaubt."@
}

/// The platform whose player shows an address: TikTok when the host
/// mentions `tiktok`, else YouTube.
pub open spec fn feed_platform(p: UrlPartsView) -> Seq<char> {
    if has_infix(host_or_empty(p), "tiktok"@) {
        "tiktok"@
    } else {
        "youtube"@
    }
}

/// Where the player may go for a requested address: the platform and the
/// parsed address, or why it may not.
pub open spec fn feed_target_spec(url: Seq<char>) -> Result<(Seq<char>, UrlPartsView), Seq<char>> {
    match url_parse(url) {
        None => Err(bad_address_msg()),
        Some(p) => if player_host(feed_platform(p), host_or_empty(p)) {
            Ok((feed_platform(p), p))
        } else {
            Err(address_not_allowed_msg())
        },
    }
}

pub fn feed_target(url: &str) -> (r: Result<(&'static str, UrlParts), String>)
    ensures
        (match r {
            Ok((platform, p)) => Ok((platform@, url_parts_view(p))),
            Err(e) => Err(e@),
        }) == feed_target_spec(url@),
{
    let parsed = match parse_url(url) {
        Some(p) => p,
        None => return Err(owned("Ungültige Adresse.")),
    };
    proof {
        reveal_strlit("");
        assert(""@ =~= Seq::<char>::empty());
    }
    let host = match &parsed.host {
        Some(h) => h.as_str(),
        None => "",
    };
    let platform = if contains_str(host, "tiktok") {
        "tiktok"
    } else {
        "youtube"
    };
    if !host_ok(&parsed, platform) {
        return Err(owned("Diese Adresse ist nicht erlaubt."));
    }
    Ok((platform, parsed))
}

/// The browser identity that a phone would send.
pub const MOBILE_UA: &'static str = "Mozilla/5.0 (Linux; Android 14; Pixel 8) AppleWebKit/537.36 (KHTML, like Gecko) Chrome/140.0.0.0 Mobile Safari/537.36";

/// The browser identity that a desktop would send.
pub const DESKTOP_UA: &'static str = "Mozilla/5.0 (Windows NT 10.0; Win64; x64) AppleWebKit/537.36 (KHTML, like Gecko) Chrome/140.0.0.0 Safari/537.36";

/// The player poses as a desktop browser for TikTok, as a phone otherwise.
pub fn player_user_agent(platform: &str) -> (r: &'static str)
    ensures
        platform@ == "tiktok"@ ==> r@ == DESKTOP_UA@,
        platform@ != "tiktok"@ ==> r@ == MOBILE_UA@,
{
    if str_eq(platform, "tiktok") {
        DESKTOP_UA
    } else {
        MOBILE_UA
    }
}

/// The script that moves the player one video forward (positive or zero
/// direction) or back (negative direction).
pub fn nudge_script(direction: i32) -> (r: String)
    ensures
        r@ == "window.__mhStep && window.__mhStep("@ + signed_decimal_spec(
            if direction < 0 {
                -1
            } else {
                1
            },
        ) + ")"@,
{
    let step: i64 = if direction < 0 {
        -1
    } else {
        1
    };
    let mut r = join("window.__mhStep && window.__mhStep(", signed_decimal(step).as_str());
    r.append(")");
    r
}

/// The address where a platform's login starts.
pub open spec fn login_address(platform: Seq<char>) -> Option<Seq<char>> {
    if platform == "tiktok"@ {
        Some("https://www.tiktok.com/login"@)
    } else if platform == "youtube"@ {
        Some(
            "https://accounts.google.com/ServiceLogin?service=youtube&hl=de&continue=https%3A%2F%2Fwww.youtube.com%2F"@,
        )
    } else {
        None
    }
}

/// The parsed login address of a platform, or why there is none.
pub open spec fn login_target_spec(platform: Seq<char>) -> Result<UrlPartsView, Seq<char>> {
    match login_address(platform) {
        None => Err(unknown_platform_msg()),
        Some(a) => match url_parse(a) {
            Some(p) => Ok(p),
            None => Err(bad_address_msg()),
        },
    }
}

pub fn login_target(platform: &str) -> (r: Result<UrlParts, String>)
    ensures
        (match r {
            Ok(p) => Ok(url_parts_view(p)),
            Err(e) => Err(e@),
        }) == login_target_spec(platform@),
{
    let raw = if str_eq(platform, "tiktok") {
        "https://www.tiktok.com/login"
    } else if str_eq(platform, "youtube") {
        "https://accounts.google.com/ServiceLogin?service=youtube&hl=de&continue=https%3A%2F%2Fwww.youtube.com%2F"
    } else {
        return Err(owned("Unbekannte Plattform."));
    };
    match parse_url(raw) {
        Some(p) => Ok(p),
        None => Err(owned("Ungültige Adresse.")),
    }
}

/// Whether a page of the platform that is no sign-in page has been
/// reached, which means the login went through.
pub open spec fn logged_in_spec(platform: Seq<char>, host: Seq<char>, path: Seq<char>) -> bool {
    if platform == "youtube"@ {
        (host == "www.youtube.com"@ || host == "m.youtube.com"@ || host == "youtube.com"@)
            && !has_infix(path, "signin"@) && !has_infix(path, "login"@)
    } else if platform == "tiktok"@ {
        (host == "www.tiktok.com"@ || host == "tiktok.com"@) && !has_infix(path, "login"@)
    } else {
        false
    }
}

pub fn logged_in(platform: &str, host: &str, path: &str) -> (r: bool)
    ensures
        r == logged_in_spec(platform@, host@, path@),
{
    if str_eq(platform, "youtube") {
        let youtube = str_eq(host, "www.youtube.com") || str_eq(host, "m.youtube.com") || str_eq(
            host,
            "youtube.com",
        );
        youtube && !contains_str(path, "signin") && !contains_str(path, "login")
    } else if str_eq(platform, "tiktok") {
        (str_eq(host, "www.tiktok.com") || str_eq(host, "tiktok.com")) && !contains_str(
            path,
            "login",
        )
    } else {
        false
    }
}

/// Whether a page is part of a sign-in: a Google or accounts host, or a
/// login or sign-in path.
pub open spec fn on_sign_in_gate(host: Seq<char>, path: Seq<char>) -> bool {
    has_infix(host, "google."@) || has_infix(host, "accounts."@) || has_infix(path, "login"@)
        || has_infix(path, "signin"@)
}

/// What the login window does when it navigates: it always lets the page
/// load; it notes that a sign-in page was seen; after one was seen, the
/// first signed-in page of the platform ends the login.
#[derive(Debug, Clone, Copy, PartialEq, Eq, Structural)]
pub struct NavigationStep {
    /// Whether a sign-in page has been seen and not yet followed by a
    /// signed-in page.
    pub watched: bool,
    /// Whether the login is done.
    pub finish: bool,
}

pub fn navigation_step(platform: &str, host: &str, path: &str, watched: bool) -> (r: NavigationStep)
    ensures
        on_sign_in_gate(host@, path@) ==> r.watched && !r.finish,
        !on_sign_in_gate(host@, path@) && watched && logged_in_spec(platform@, host@, path@) ==> !r.watched
            && r.finish,
        !on_sign_in_gate(host@, path@) && !(watched && logged_in_spec(platform@, host@, path@))
            ==> r.watched == watched && !r.finish,
{
    let on_gate = contains_str(host, "google.") || contains_str(host, "accounts.") || contains_str(
        path,
        "login",
    ) || contains_str(path, "signin");
    if on_gate {
        return NavigationStep { watched: true, finish: false };
    }
    if watched && logged_in(platform, host, path) {
        return NavigationStep { watched: false, finish: true };
    }
    NavigationStep { watched, finish: false }
}

/// The title of the login window.
pub fn login_window_title(platform: &str) -> (r: &'static str)
    ensures
        platform@ == "tiktok"@ ==> r@ == "Bei TikTok anmelden"@,
        platform@ != "tiktok"@ ==> r@ == "Mit Google anmelden"@,
{
    if str_eq(platform, "tiktok") {
        "Bei TikTok anmelden"
    } else {
        "Mit Google anmelden"
    }
}

/// Whether a login window may be opened for a platform.
pub fn check_login_platform(platform: &str) -> (r: Result<(), String>)
    ensures
        r is Ok <==> (platform@ == "youtube"@ || platform@ == "tiktok"@),
        r matches Err(e) ==> e@ == unknown_platform_msg(),
{
    if !str_eq(platform, "youtube") && !str_eq(platform, "tiktok") {
        return Err(owned("Unbekannte Plattform."));
    }
    Ok(())
}

} // verus!
