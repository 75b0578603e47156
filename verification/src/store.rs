//! How settings, profile labels and local media are written to and read
//! from the application's database: the key-value records of the settings
//! table and the checks made before the database is touched.

use vstd::prelude::*;

use crate::model::{
    default_settings, known_language, known_performance_mode, known_start_page, known_theme,
    validate_settings, validate_settings_spec, Settings, SettingsView,
};
use crate::secrets::StoreOp;
use crate::session::{key_for, key_name, token_key, token_plan, Platform, TokenFields};
use crate::text::{
    byte_len, byte_length, clip, clip_spec, contains_char, decimal, decimal_spec, lemma_parse_u8_decimal,
    owned, parse_u8, parse_u8_spec, str_eq,
};
use crate::urls::pairs_view;

verus! {

/// How a flag is written in the settings table.
pub open spec fn flag_text(b: bool) -> Seq<char> {
    if b {
        "true"@
    } else {
        "false"@
    }
}

pub fn bool_str(value: bool) -> (r: String)
    ensures
        r@ == flag_text(value),
{
    if value {
        owned("true")
    } else {
        owned("false")
    }
}

/// How a flag is read back: anything but `false` counts as set.
pub open spec fn read_flag(t: Seq<char>) -> bool {
    t != "false"@
}

pub fn stored_flag(text: &str) -> (r: bool)
    ensures
        r == read_flag(text@),
{
    !str_eq(text, "false")
}

/// The values of the settings keys, as the settings table holds them
/// (empty where a key is missing).
#[derive(Debug, Clone, PartialEq, Eq)]
pub struct StoredSettings {
    pub performance_mode: String,
    pub language: String,
    pub theme: String,
    pub animations: String,
    pub autoplay: String,
    pub volume: String,
    pub start_page: String,
    pub history_enabled: String,
    pub youtube_client_id: String,
    pub tiktok_client_key: String,
}

pub struct StoredSettingsView {
    pub performance_mode: Seq<char>,
    pub language: Seq<char>,
    pub theme: Seq<char>,
    pub animations: Seq<char>,
    pub autoplay: Seq<char>,
    pub volume: Seq<char>,
    pub start_page: Seq<char>,
    pub history_enabled: Seq<char>,
    pub youtube_client_id: Seq<char>,
    pub tiktok_client_key: Seq<char>,
}

impl View for StoredSettings {
    type V = StoredSettingsView;

    open spec fn view(&self) -> StoredSettingsView {
        StoredSettingsView {
            performance_mode: self.performance_mode@,
            language: self.language@,
            theme: self.theme@,
            animations: self.animations@,
            autoplay: self.autoplay@,
            volume: self.volume@,
            start_page: self.start_page@,
            history_enabled: self.history_enabled@,
            youtube_client_id: self.youtube_client_id@,
            tiktok_client_key: self.tiktok_client_key@,
        }
    }
}

/// The record written for settings.
pub open spec fn record_of(s: SettingsView) -> StoredSettingsView {
    StoredSettingsView {
        performance_mode: s.performance_mode,
        language: s.language,
        theme: s.theme,
        animations: flag_text(s.animations),
        autoplay: flag_text(s.autoplay),
        volume: decimal_spec(s.volume as nat),
        start_page: s.start_page,
        history_enabled: flag_text(s.history_enabled),
        youtube_client_id: s.youtube_client_id,
        tiktok_client_key: s.tiktok_client_key,
    }
}

pub open spec fn or_if_empty(v: Seq<char>, default: Seq<char>) -> Seq<char> {
    if v.len() == 0 {
        default
    } else {
        v
    }
}

/// The settings read from a record: missing choices fall back to their
/// defaults, flags count as set unless `false`, an unreadable volume reads
/// as 80.
pub open spec fn settings_of(r: StoredSettingsView, tiktok_secret_set: bool) -> SettingsView {
    SettingsView {
        performance_mode: or_if_empty(r.performance_mode, "sparsam"@),
        language: or_if_empty(r.language, "de"@),
        theme: or_if_empty(r.theme, "dunkel"@),
        animations: read_flag(r.animations),
        autoplay: read_flag(r.autoplay),
        volume: match parse_u8_spec(r.volume) {
            Some(v) => v,
            None => 80,
        },
        start_page: or_if_empty(r.start_page, "start"@),
        history_enabled: read_flag(r.history_enabled),
        youtube_client_id: r.youtube_client_id,
        tiktok_client_key: r.tiktok_client_key,
        tiktok_secret_set: tiktok_secret_set,
    }
}

/// The keys and values of a record, in the order they are written.
pub open spec fn record_pairs(r: StoredSettingsView) -> Seq<(Seq<char>, Seq<char>)> {
    seq![
        ("performance_mode"@, r.performance_mode),
        ("language"@, r.language),
        ("theme"@, r.theme),
        ("animations"@, r.animations),
        ("autoplay"@, r.autoplay),
        ("volume"@, r.volume),
        ("start_page"@, r.start_page),
        ("history_enabled"@, r.history_enabled),
        ("youtube_client_id"@, r.youtube_client_id),
        ("tiktok_client_key"@, r.tiktok_client_key),
    ]
}

/// The record written for `s`.
pub fn settings_record(s: &Settings) -> (r: StoredSettings)
    ensures
        r@ == record_of(s@),
{
    StoredSettings {
        performance_mode: s.performance_mode.clone(),
        language: s.language.clone(),
        theme: s.theme.clone(),
        animations: bool_str(s.animations),
        autoplay: bool_str(s.autoplay),
        volume: decimal(s.volume as u64),
        start_page: s.start_page.clone(),
        history_enabled: bool_str(s.history_enabled),
        youtube_client_id: s.youtube_client_id.clone(),
        tiktok_client_key: s.tiktok_client_key.clone(),
    }
}

fn pair(k: &str, v: String) -> (r: (String, String))
    ensures
        r.0@ == k@,
        r.1@ == v@,
{
    (owned(k), v)
}

/// The keys and values of a record, in the order they are written.
pub fn record_entries(r: StoredSettings) -> (out: Vec<(String, String)>)
    ensures
        pairs_view(out@) == record_pairs(r@),
{
    let ghost rv = r@;
    let mut out: Vec<(String, String)> = Vec::new();
    out.push(pair("performance_mode", r.performance_mode));
    out.push(pair("language", r.language));
    out.push(pair("theme", r.theme));
    out.push(pair("animations", r.animations));
    out.push(pair("autoplay", r.autoplay));
    out.push(pair("volume", r.volume));
    out.push(pair("start_page", r.start_page));
    out.push(pair("history_enabled", r.history_enabled));
    out.push(pair("youtube_client_id", r.youtube_client_id));
    out.push(pair("tiktok_client_key", r.tiktok_client_key));
    assert(pairs_view(out@) =~= record_pairs(rv));
    out
}

fn or_default_str(v: &String, default: &str) -> (r: String)
    ensures
        r@ == or_if_empty(v@, default@),
{
    if v.as_str().is_empty() {
        owned(default)
    } else {
        v.clone()
    }
}

/// The settings read from a record.
pub fn settings_from_record(r: &StoredSettings, tiktok_secret_set: bool) -> (s: Settings)
    ensures
        s@ == settings_of(r@, tiktok_secret_set),
{
    Settings {
        performance_mode: or_default_str(&r.performance_mode, "sparsam"),
        language: or_default_str(&r.language, "de"),
        theme: or_default_str(&r.theme, "dunkel"),
        animations: stored_flag(r.animations.as_str()),
        autoplay: stored_flag(r.autoplay.as_str()),
        volume: match parse_u8(r.volume.as_str()) {
            Some(v) => v,
            None => 80,
        },
        start_page: or_default_str(&r.start_page, "start"),
        history_enabled: stored_flag(r.history_enabled.as_str()),
        youtube_client_id: r.youtube_client_id.clone(),
        tiktok_client_key: r.tiktok_client_key.clone(),
        tiktok_secret_set,
    }
}

pub open spec fn settings_entries_spec(s: SettingsView) -> Result<Seq<(Seq<char>, Seq<char>)>, Seq<char>> {
    match validate_settings_spec(s) {
        Ok(v) => Ok(record_pairs(record_of(v))),
        Err(e) => Err(e),
    }
}

/// The entries written when settings are saved: the record of the
/// validated settings, or why they are refused.
pub fn settings_entries(settings: Settings) -> (r: Result<Vec<(String, String)>, String>)
    ensures
        (match r {
            Ok(v) => Ok(pairs_view(v@)),
            Err(e) => Err(e@),
        }) == settings_entries_spec(settings@),
{
    match validate_settings(settings) {
        Ok(v) => Ok(record_entries(settings_record(&v))),
        Err(e) => Err(e),
    }
}

/// Settings that were saved read back unchanged: whatever settings are
/// accepted, reading their record gives exactly the accepted settings
/// (with the secret flag that is passed in).
pub proof fn lemma_saved_settings_read_back(s: SettingsView)
    ensures
        validate_settings_spec(s) matches Ok(v) ==> settings_of(record_of(v), v.tiktok_secret_set)
            == v,
{
    if validate_settings_spec(s) is Ok {
        let v = validate_settings_spec(s)->Ok_0;
        crate::model::lemma_validate_settings_idempotent(s);
        lemma_parse_u8_decimal(v.volume);
        reveal_strlit("true");
        reveal_strlit("false");
        reveal_strlit("sparsam");
        reveal_strlit("standard");
        reveal_strlit("maximal");
        reveal_strlit("de");
        reveal_strlit("en");
        reveal_strlit("dunkel");
        reveal_strlit("hell");
        reveal_strlit("start");
        reveal_strlit("shorts");
        assert("true"@.len() == 4);
        assert("false"@.len() == 5);
        assert(flag_text(true) != "false"@);
        let back = settings_of(record_of(v), v.tiktok_secret_set);
        assert(back.performance_mode == v.performance_mode);
        assert(back.language == v.language);
        assert(back.theme == v.theme);
        assert(back.start_page == v.start_page);
        assert(back.animations == v.animations);
        assert(back.autoplay == v.autoplay);
        assert(back.history_enabled == v.history_enabled);
    }
}

/// The default settings are accepted and read back from their record.
pub proof fn lemma_default_settings_round_trip()
    ensures
        validate_settings_spec(default_settings()) == Ok::<SettingsView, Seq<char>>(
            default_settings(),
        ),
        settings_of(record_of(default_settings()), false) == default_settings(),
{
    reveal_strlit("sparsam");
    reveal_strlit("de");
    reveal_strlit("dunkel");
    reveal_strlit("start");
    let d = default_settings();
    let e: Seq<char> = Seq::empty();
    assert(crate::text::trim_spec(e) == e);
    assert(validate_settings_spec(d) == Ok::<SettingsView, Seq<char>>(d));
    lemma_saved_settings_read_back(d);
}

/// The entries written into a new database: the record of the default
/// settings, then empty profile labels for both platforms.
pub fn seed_entries() -> (r: Vec<(String, String)>)
    ensures
        pairs_view(r@) == record_pairs(record_of(default_settings())) + seq![
            ("youtube_display_name"@, Seq::<char>::empty()),
            ("youtube_handle"@, Seq::<char>::empty()),
            ("tiktok_display_name"@, Seq::<char>::empty()),
            ("tiktok_handle"@, Seq::<char>::empty()),
        ],
{
    let defaults = Settings::default();
    let mut r = record_entries(settings_record(&defaults));
    let ghost first = pairs_view(r@);
    r.push(pair("youtube_display_name", String::new()));
    r.push(pair("youtube_handle", String::new()));
    r.push(pair("tiktok_display_name", String::new()));
    r.push(pair("tiktok_handle", String::new()));
    assert(pairs_view(r@) =~= first + seq![
        ("youtube_display_name"@, Seq::<char>::empty()),
        ("youtube_handle"@, Seq::<char>::empty()),
        ("tiktok_display_name"@, Seq::<char>::empty()),
        ("tiktok_handle"@, Seq::<char>::empty()),
    ]);
    r
}

/// The settings keys that hold a platform's profile labels.
pub fn profile_keys(p: Platform) -> (r: (String, String))
    ensures
        r.0@ == key_name(p, "display_name"@),
        r.1@ == key_name(p, "handle"@),
{
    (key_for(p, "display_name"), key_for(p, "handle"))
}

/// The entries written for a platform's profile labels: name and handle,
/// each clipped to 80 characters.
pub fn profile_entries(p: Platform, name: &str, handle: &str) -> (r: Vec<(String, String)>)
    ensures
        pairs_view(r@) == seq![
            (key_name(p, "display_name"@), clip_spec(name@, 80)),
            (key_name(p, "handle"@), clip_spec(handle@, 80)),
        ],
{
    let (name_key, handle_key) = profile_keys(p);
    let mut r: Vec<(String, String)> = Vec::new();
    r.push((name_key, clip(name, 80)));
    r.push((handle_key, clip(handle, 80)));
    assert(pairs_view(r@) =~= seq![
        (key_name(p, "display_name"@), clip_spec(name@, 80)),
        (key_name(p, "handle"@), clip_spec(handle@, 80)),
    ]);
    r
}

/// How many history entries are kept.
pub const HISTORY_LIMIT: u32 = 200;

/// How many favorites and local files are listed.
pub const LIST_LIMIT: u32 = 500;

/// How many files may be added at once.
pub const MAX_FILES_PER_ADD: usize = 40;

/// How many local files the list may hold before adding is refused.
pub const MAX_LOCAL_FILES: i64 = 500;

pub open spec fn too_many_files_msg() -> Seq<char> {
    "Zu viele Dateien auf einmal."@
}

pub open spec fn media_list_full_msg() -> Seq<char> {
    "Die Medienliste ist voll."@
}

/// Whether files may be added: at most 40 at once, and only while the list
/// holds at most 500.
pub fn check_add_local(paths: usize, count: i64) -> (r: Result<(), String>)
    ensures
        paths > MAX_FILES_PER_ADD ==> (r matches Err(e) && e@ == too_many_files_msg()),
        paths <= MAX_FILES_PER_ADD && count > MAX_LOCAL_FILES ==> (r matches Err(e) && e@
            == media_list_full_msg()),
        paths <= MAX_FILES_PER_ADD && count <= MAX_LOCAL_FILES ==> r is Ok,
{
    if paths > MAX_FILES_PER_ADD {
        return Err(owned("Zu viele Dateien auf einmal."));
    }
    if count > MAX_LOCAL_FILES {
        return Err(owned("Die Medienliste ist voll."));
    }
    Ok(())
}

/// Whether a path may be looked up at all: at most 1024 bytes, no NUL.
pub fn check_media_path(raw: &str) -> (r: Result<(), String>)
    ensures
        r is Ok <==> crate::model::is_storable_path(raw@),
        r matches Err(e) ==> e@ == crate::model::bad_path_msg(),
{
    if byte_length(raw) > 1024 || contains_char(raw, '\0') {
        return Err(owned("Ungültiger Dateipfad."));
    }
    Ok(())
}

/// `c` with ASCII upper-case letters made lower-case.
pub open spec fn ascii_lower(c: char) -> char {
    if 'A' <= c && c <= 'Z' {
        ((c as u32) + 32) as char
    } else {
        c
    }
}

/// Whether `s` equals `lower` when its ASCII letters are made lower-case.
pub open spec fn lower_eq(s: Seq<char>, lower: Seq<char>) -> bool {
    s.len() == lower.len() && forall|i: int| 0 <= i < s.len() ==> ascii_lower(#[trigger] s[i])
        == lower[i]
}

fn lower_char(c: char) -> (r: char)
    ensures
        r == ascii_lower(c),
{
    if 'A' <= c && c <= 'Z' {
        let b: u8 = (c as u8) + 32;
        b as char
    } else {
        c
    }
}

fn ascii_lower_eq(s: &str, lower: &str) -> (r: bool)
    ensures
        r == lower_eq(s@, lower@),
{
    let n = s.unicode_len();
    if n != lower.unicode_len() {
        return false;
    }
    let mut i: usize = 0;
    while i < n
        invariant
            n == s@.len(),
            n == lower@.len(),
            i <= n,
            forall|j: int| 0 <= j < i ==> ascii_lower(#[trigger] s@[j]) == lower@[j],
        decreases n - i,
    {
        if lower_char(s.get_char(i)) != lower.get_char(i) {
            return false;
        }
        i = i + 1;
    }
    true
}

/// Extensions of the video files that may be added.
pub open spec fn video_extension(ext: Seq<char>) -> bool {
    lower_eq(ext, "mp4"@) || lower_eq(ext, "webm"@) || lower_eq(ext, "m4v"@)
}

pub open spec fn wrong_extension_msg() -> Seq<char> {
    "Erlaubt sind mp4, webm und m4v."@
}

/// The Windows prefix of verbatim paths, `\\?\`.
pub open spec fn verbatim_prefix() -> Seq<char> {
    "\\\\?\\"@
}

/// A path without the verbatim prefix, when it has one.
pub open spec fn strip_verbatim(p: Seq<char>) -> Seq<char> {
    let v = verbatim_prefix();
    if v.len() <= p.len() && p.take(v.len() as int) == v {
        p.skip(v.len() as int)
    } else {
        p
    }
}

/// The entry kept for a local video file, given its resolved path, the
/// extension and the file name without extension: the path without the
/// verbatim prefix and the name (default "Video") clipped to 180
/// characters; files of other kinds are refused.
pub open spec fn media_entry_spec(path: Seq<char>, ext: Option<Seq<char>>, stem: Option<Seq<char>>) -> Result<(Seq<char>, Seq<char>), Seq<char>> {
    let e = match ext {
        Some(e) => e,
        None => Seq::empty(),
    };
    if !video_extension(e) {
        Err(wrong_extension_msg())
    } else {
        Ok(
            (
                strip_verbatim(path),
                clip_spec(
                    match stem {
                        Some(s) => s,
                        None => "Video"@,
                    },
                    180,
                ),
            ),
        )
    }
}

pub fn media_entry(path: &str, ext: Option<&str>, stem: Option<&str>) -> (r: Result<(String, String), String>)
    ensures
        (match r {
            Ok((p, t)) => Ok((p@, t@)),
            Err(e) => Err(e@),
        }) == media_entry_spec(
            path@,
            match ext {
                Some(e) => Some(e@),
                None => None,
            },
            match stem {
                Some(s) => Some(s@),
                None => None,
            },
        ),
{
    proof {
        reveal_strlit("");
        assert(""@ =~= Seq::<char>::empty());
    }
    let e = match ext {
        Some(e) => e,
        None => "",
    };
    if !(ascii_lower_eq(e, "mp4") || ascii_lower_eq(e, "webm") || ascii_lower_eq(e, "m4v")) {
        return Err(owned("Erlaubt sind mp4, webm und m4v."));
    }
    let prefix = "\\\\?\\";
    proof {
        reveal_strlit("\\\\?\\");
    }
    let n = path.unicode_len();
    let text = if n >= 4 && str_eq(path.substring_char(0, 4), prefix) {
        path.substring_char(4, n)
    } else {
        path
    };
    let title = clip(
        match stem {
            Some(s) => s,
            None => "Video",
        },
        180,
    );
    Ok((owned(text), title))
}

/// Tokens are kept only in the credential store: no key of the settings
/// table that the library writes (the settings record, which the seed also
/// writes, and the profile labels) is a token key, while every request
/// made for a token answer is a write to the credential store under a
/// token key.
pub proof fn lemma_tokens_only_in_vault(s: SettingsView, p: Platform, token: TokenFields, now: i64)
    ensures
        forall|i: int|
            0 <= i < record_pairs(record_of(s)).len() ==> !token_key(#[trigger] record_pairs(record_of(s))[i].0),
        !token_key(key_name(p, "display_name"@)),
        !token_key(key_name(p, "handle"@)),
        token_plan(p, token, now) matches Some(plan) ==> forall|i: int|
            0 <= i < plan.len() ==> (#[trigger] plan[i] matches StoreOp::Put(k, _) && token_key(k)),
{
    reveal_strlit("youtube");
    reveal_strlit("tiktok");
    reveal_strlit("_");
    reveal_strlit("access");
    reveal_strlit("refresh");
    reveal_strlit("expiry");
    reveal_strlit("display_name");
    reveal_strlit("handle");
    reveal_strlit("performance_mode");
    reveal_strlit("language");
    reveal_strlit("theme");
    reveal_strlit("animations");
    reveal_strlit("autoplay");
    reveal_strlit("volume");
    reveal_strlit("start_page");
    reveal_strlit("history_enabled");
    reveal_strlit("youtube_client_id");
    reveal_strlit("tiktok_client_key");
    let ya = key_name(Platform::YouTube, "access"@);
    let yr = key_name(Platform::YouTube, "refresh"@);
    let ye = key_name(Platform::YouTube, "expiry"@);
    let ta = key_name(Platform::TikTok, "access"@);
    let tr = key_name(Platform::TikTok, "refresh"@);
    let te = key_name(Platform::TikTok, "expiry"@);
    assert(ya.len() == 14 && yr.len() == 15 && ye.len() == 14);
    assert(ta.len() == 13 && tr.len() == 14 && te.len() == 13);
    assert(yr[0] == 'y' && ya[8] == 'a' && ye[8] == 'e' && tr[7] == 'r' && ta[7] == 'a' && te[7] == 'e');
    assert("history_enabled"@[0] == 'h');
    let pairs = record_pairs(record_of(s));
    assert forall|i: int| 0 <= i < pairs.len() implies !token_key(#[trigger] pairs[i].0) by {
        assert(pairs[i].0 == pairs[i].0);
    }
    let dn = key_name(p, "display_name"@);
    let hn = key_name(p, "handle"@);
    assert(dn.len() >= 19);
    if p == Platform::YouTube {
        assert(hn.len() == 14 && hn[8] == 'h');
    } else {
        assert(hn.len() == 13 && hn[7] == 'h');
    }
}

/// What toggling a favorite changes in the favorites table.
#[derive(Debug, Clone, Copy, PartialEq, Eq, Structural)]
pub enum FavoriteChange {
    /// Delete the item's row.
    Remove,
    /// Insert a row for the item.
    Add,
}

/// Toggling a favorite: an item that is a favorite is removed, any other
/// is added; the flag says whether it is a favorite afterwards.
pub fn favorite_toggle(exists: bool) -> (r: (FavoriteChange, bool))
    ensures
        r.0 == (if exists {
            FavoriteChange::Remove
        } else {
            FavoriteChange::Add
        }),
        r.1 == !exists,
{
    if exists {
        (FavoriteChange::Remove, false)
    } else {
        (FavoriteChange::Add, true)
    }
}

} // verus!
