//! The records the application passes around, and the rules that decide
//! which of them are accepted: video ids, links, thumbnails, client ids,
//! secrets and settings.

use vstd::prelude::*;

use crate::text::{
    ascii_alphanumeric, ascii_digit, byte_len, byte_length, ends_with, has_suffix, is_ascii_alphanumeric,
    is_ascii_digit, owned, str_eq, trim, trim_spec, clip, clip_spec, contains_char, join,
    is_control, is_whitespace, unicode_control, unicode_white_space, lemma_trim_idempotent,
    trim_end_spec, trim_start_spec, lemma_clip_idempotent,
};
use crate::urls::{host_or_empty, parse_url, url_parse, url_parts_view, UrlParts};

verus! {

/// The port of the local OAuth redirect listener.
pub const REDIRECT_PORT: u16 = 38947;

/// The OAuth redirect URI registered with both platforms.
pub fn redirect_uri() -> (r: &'static str)
    ensures
        r@ == "http://127.0.0.1:38947/callback"@,
{
    "http://127.0.0.1:38947/callback"
}

/// A video of one of the platforms or a local file.
#[derive(Debug, Clone, PartialEq, Eq)]
pub struct MediaItem {
    pub platform: String,
    pub external_id: String,
    pub title: String,
    pub creator: String,
    pub url: String,
    pub thumb: String,
}

pub struct MediaItemView {
    pub platform: Seq<char>,
    pub external_id: Seq<char>,
    pub title: Seq<char>,
    pub creator: Seq<char>,
    pub url: Seq<char>,
    pub thumb: Seq<char>,
}

impl View for MediaItem {
    type V = MediaItemView;

    open spec fn view(&self) -> MediaItemView {
        MediaItemView {
            platform: self.platform@,
            external_id: self.external_id@,
            title: self.title@,
            creator: self.creator@,
            url: self.url@,
            thumb: self.thumb@,
        }
    }
}

/// An entry of the watch history.
#[derive(Debug, Clone, PartialEq, Eq)]
pub struct HistoryItem {
    pub platform: String,
    pub external_id: String,
    pub title: String,
    pub creator: String,
    pub url: String,
    pub thumb: String,
    pub watched_at: i64,
}

/// How a platform account is shown.
#[derive(Debug, Clone, PartialEq, Eq)]
pub struct Account {
    pub connected: bool,
    pub display_name: String,
    pub handle: String,
}

#[derive(Debug, Clone, PartialEq, Eq)]
pub struct Accounts {
    pub youtube: Account,
    pub tiktok: Account,
}

/// A subscribed channel.
#[derive(Debug, Clone, PartialEq, Eq)]
pub struct Channel {
    pub name: String,
    pub handle: String,
    pub url: String,
}

/// A local video file known to the application.
#[derive(Debug, Clone, PartialEq, Eq)]
pub struct LocalMedia {
    pub id: i64,
    pub path: String,
    pub title: String,
    pub kind: String,
}

/// The user's settings.
#[derive(Debug, Clone, PartialEq, Eq)]
pub struct Settings {
    pub performance_mode: String,
    pub language: String,
    pub theme: String,
    pub animations: bool,
    pub autoplay: bool,
    pub volume: u8,
    pub start_page: String,
    pub history_enabled: bool,
    pub youtube_client_id: String,
    pub tiktok_client_key: String,
    pub tiktok_secret_set: bool,
}

pub struct SettingsView {
    pub performance_mode: Seq<char>,
    pub language: Seq<char>,
    pub theme: Seq<char>,
    pub animations: bool,
    pub autoplay: bool,
    pub volume: u8,
    pub start_page: Seq<char>,
    pub history_enabled: bool,
    pub youtube_client_id: Seq<char>,
    pub tiktok_client_key: Seq<char>,
    pub tiktok_secret_set: bool,
}

impl View for Settings {
    type V = SettingsView;

    open spec fn view(&self) -> SettingsView {
        SettingsView {
            performance_mode: self.performance_mode@,
            language: self.language@,
            theme: self.theme@,
            animations: self.animations,
            autoplay: self.autoplay,
            volume: self.volume,
            start_page: self.start_page@,
            history_enabled: self.history_enabled,
            youtube_client_id: self.youtube_client_id@,
            tiktok_client_key: self.tiktok_client_key@,
            tiktok_secret_set: self.tiktok_secret_set,
        }
    }
}

/// The settings of a fresh installation.
pub open spec fn default_settings() -> SettingsView {
    SettingsView {
        performance_mode: "sparsam"@,
        language: "de"@,
        theme: "dunkel"@,
        animations: false,
        autoplay: true,
        volume: 80,
        start_page: "start"@,
        history_enabled: true,
        youtube_client_id: Seq::empty(),
        tiktok_client_key: Seq::empty(),
        tiktok_secret_set: false,
    }
}

impl Default for Settings {
    fn default() -> (r: Settings)
        ensures
            r@ == default_settings(),
    {
        Settings {
            performance_mode: owned("sparsam"),
            language: owned("de"),
            theme: owned("dunkel"),
            animations: false,
            autoplay: true,
            volume: 80,
            start_page: owned("start"),
            history_enabled: true,
            youtube_client_id: String::new(),
            tiktok_client_key: String::new(),
            tiktok_secret_set: false,
        }
    }
}

/// The character classes that identifiers are checked against.
#[derive(Debug, Clone, Copy, PartialEq, Eq, Structural)]
pub enum CharClass {
    /// `0-9`
    Digit,
    /// `A-Z a-z 0-9 _ -`, the characters of a YouTube video id.
    VideoId,
    /// `A-Z a-z 0-9 - _ .`, the characters of an OAuth client id.
    ClientId,
    /// `A-Z a-z 0-9 - _ . ~ /`, the characters of an authorization code.
    AuthCode,
}

pub open spec fn in_class(class: CharClass, c: char) -> bool {
    match class {
        CharClass::Digit => is_ascii_digit(c),
        CharClass::VideoId => is_ascii_alphanumeric(c) || c == '_' || c == '-',
        CharClass::ClientId => is_ascii_alphanumeric(c) || c == '-' || c == '_' || c == '.',
        CharClass::AuthCode => is_ascii_alphanumeric(c) || c == '-' || c == '_' || c == '.' || c
            == '~' || c == '/',
    }
}

pub open spec fn all_in_class(class: CharClass, s: Seq<char>) -> bool {
    forall|i: int| 0 <= i < s.len() ==> #[trigger] in_class(class, s[i])
}

fn char_in_class(class: &CharClass, c: char) -> (r: bool)
    ensures
        r == in_class(*class, c),
{
    match class {
        CharClass::Digit => ascii_digit(c),
        CharClass::VideoId => ascii_alphanumeric(c) || c == '_' || c == '-',
        CharClass::ClientId => ascii_alphanumeric(c) || c == '-' || c == '_' || c == '.',
        CharClass::AuthCode => ascii_alphanumeric(c) || c == '-' || c == '_' || c == '.' || c
            == '~' || c == '/',
    }
}

/// Whether every character of `s` is in `class`.
pub fn all_chars_in(s: &str, class: CharClass) -> (r: bool)
    ensures
        r == all_in_class(class, s@),
{
    let n = s.unicode_len();
    let mut i: usize = 0;
    while i < n
        invariant
            n == s@.len(),
            i <= n,
            forall|j: int| 0 <= j < i ==> #[trigger] in_class(class, s@[j]),
        decreases n - i,
    {
        if !char_in_class(&class, s.get_char(i)) {
            return false;
        }
        i = i + 1;
    }
    true
}

/// A string of class characters is ASCII, so it has one byte per character.
pub proof fn lemma_class_byte_len(class: CharClass, s: Seq<char>)
    requires
        all_in_class(class, s),
    ensures
        byte_len(s) == s.len(),
{
    assert(vstd::utf8::is_ascii_chars(s)) by {
        assert forall|i: int| 0 <= i < s.len() implies '\0' <= #[trigger] s[i] <= '\u{7f}' by {
            assert(in_class(class, s[i]));
        }
    }
    vstd::utf8::is_ascii_chars_encode_utf8(s);
}

/// Whether `s` is a YouTube video id: eleven bytes from `A-Z a-z 0-9 _ -`.
pub open spec fn is_youtube_id_spec(s: Seq<char>) -> bool {
    byte_len(s) == 11 && all_in_class(CharClass::VideoId, s)
}

/// Whether `s` is a TikTok video id: six to twenty-five ASCII digits.
pub open spec fn is_tiktok_id_spec(s: Seq<char>) -> bool {
    6 <= byte_len(s) <= 25 && all_in_class(CharClass::Digit, s)
}

pub fn is_youtube_id(id: &str) -> (r: bool)
    ensures
        r == is_youtube_id_spec(id@),
{
    byte_length(id) == 11 && all_chars_in(id, CharClass::VideoId)
}

pub fn is_tiktok_id(id: &str) -> (r: bool)
    ensures
        r == is_tiktok_id_spec(id@),
{
    let n = byte_length(id);
    6 <= n && n <= 25 && all_chars_in(id, CharClass::Digit)
}

/// A YouTube id is exactly eleven characters long, each from the id
/// alphabet; a TikTok id is six to twenty-five decimal digits.
pub proof fn lemma_video_id_chars(s: Seq<char>)
    ensures
        is_youtube_id_spec(s) <==> (s.len() == 11 && all_in_class(CharClass::VideoId, s)),
        is_tiktok_id_spec(s) <==> (6 <= s.len() <= 25 && all_in_class(CharClass::Digit, s)),
{
    if all_in_class(CharClass::VideoId, s) {
        lemma_class_byte_len(CharClass::VideoId, s);
    }
    if all_in_class(CharClass::Digit, s) {
        lemma_class_byte_len(CharClass::Digit, s);
    }
}

/// Hosts whose thumbnails may be shown.
pub open spec fn thumb_host_allowed(h: Seq<char>) -> bool {
    ||| h == "i.ytimg.com"@
    ||| has_suffix(h, ".ytimg.com"@)
    ||| has_suffix(h, ".tiktokcdn.com"@)
    ||| has_suffix(h, ".tiktokcdn-us.com"@)
}

/// The thumbnail link that may be shown for `raw`: its serialization when
/// it parses as an `https` URL on an allowed image host, else empty.
pub open spec fn clean_thumb_spec(raw: Seq<char>) -> Seq<char> {
    match url_parse(raw) {
        Some(p) => if p.0 == "https"@ && thumb_host_allowed(host_or_empty(p)) {
            p.3
        } else {
            Seq::empty()
        },
        None => Seq::empty(),
    }
}

fn host_str(u: &UrlParts) -> (r: &str)
    ensures
        r@ == host_or_empty(url_parts_view(*u)),
{
    match &u.host {
        Some(h) => h.as_str(),
        None => {
            proof {
                reveal_strlit("");
            }
            ""
        },
    }
}

pub fn clean_thumb(raw: &str) -> (r: String)
    ensures
        r@ == clean_thumb_spec(raw@),
{
    let url = match parse_url(raw) {
        Some(u) => u,
        None => return String::new(),
    };
    if !str_eq(url.scheme.as_str(), "https") {
        return String::new();
    }
    let host = host_str(&url);
    let ok = str_eq(host, "i.ytimg.com") || ends_with(host, ".ytimg.com") || ends_with(
        host,
        ".tiktokcdn.com",
    ) || ends_with(host, ".tiktokcdn-us.com");
    if ok {
        url.href
    } else {
        String::new()
    }
}

/// Hosts whose links may be opened.
pub open spec fn platform_host(h: Seq<char>) -> bool {
    ||| h == "www.youtube.com"@
    ||| h == "youtube.com"@
    ||| h == "youtu.be"@
    ||| h == "www.youtube-nocookie.com"@
    ||| h == "www.tiktok.com"@
    ||| h == "tiktok.com"@
    ||| h == "vm.tiktok.com"@
    ||| h == "m.tiktok.com"@
}

pub open spec fn invalid_link_msg() -> Seq<char> {
    "Ungültiger Link."@
}

pub open spec fn foreign_link_msg() -> Seq<char> {
    "Dieser Link gehört nicht zu YouTube oder TikTok."@
}

/// `raw` as a link that may be opened: its serialization when it parses as
/// an `https` URL on a YouTube or TikTok host, else the reason it may not.
pub open spec fn platform_url_spec(raw: Seq<char>) -> Result<Seq<char>, Seq<char>> {
    match url_parse(raw) {
        Some(p) => if p.0 != "https"@ {
            Err(invalid_link_msg())
        } else if !platform_host(host_or_empty(p)) {
            Err(foreign_link_msg())
        } else {
            Ok(p.3)
        },
        None => Err(invalid_link_msg()),
    }
}

pub open spec fn string_result_view(r: Result<String, String>) -> Result<Seq<char>, Seq<char>> {
    match r {
        Ok(s) => Ok(s@),
        Err(e) => Err(e@),
    }
}

fn is_platform_host(h: &str) -> (r: bool)
    ensures
        r == platform_host(h@),
{
    str_eq(h, "www.youtube.com") || str_eq(h, "youtube.com") || str_eq(h, "youtu.be") || str_eq(
        h,
        "www.youtube-nocookie.com",
    ) || str_eq(h, "www.tiktok.com") || str_eq(h, "tiktok.com") || str_eq(h, "vm.tiktok.com")
        || str_eq(h, "m.tiktok.com")
}

pub fn ensure_platform_url(raw: &str) -> (r: Result<String, String>)
    ensures
        string_result_view(r) == platform_url_spec(raw@),
{
    let url = match parse_url(raw) {
        Some(u) => u,
        None => return Err(owned("Ungültiger Link.")),
    };
    if !str_eq(url.scheme.as_str(), "https") {
        return Err(owned("Ungültiger Link."));
    }
    let host = host_str(&url);
    if !is_platform_host(host) {
        return Err(owned("Dieser Link gehört nicht zu YouTube oder TikTok."));
    }
    Ok(url.href)
}


/// The title kept for a video: trimmed, clipped to 180 characters, and
/// "Video" where nothing is left.
pub open spec fn canonical_title(t: Seq<char>) -> Seq<char> {
    let c = clip_spec(trim_spec(t), 180);
    if c.len() == 0 {
        "Video"@
    } else {
        c
    }
}

/// The creator kept for a video: trimmed and clipped to 80 characters.
pub open spec fn canonical_creator(c: Seq<char>) -> Seq<char> {
    clip_spec(trim_spec(c), 80)
}

pub open spec fn bad_video_id_msg() -> Seq<char> {
    "Ungültige Video-ID."@
}

pub open spec fn bad_entry_msg() -> Seq<char> {
    "Ungültiger Eintrag."@
}

pub open spec fn bad_path_msg() -> Seq<char> {
    "Ungültiger Dateipfad."@
}

pub open spec fn unknown_platform_msg() -> Seq<char> {
    "Unbekannte Plattform."@
}

/// A local media id: one to twenty ASCII digits.
pub open spec fn is_local_id_spec(s: Seq<char>) -> bool {
    s.len() != 0 && byte_len(s) <= 20 && all_in_class(CharClass::Digit, s)
}

/// A local file path that may be stored: at most 1024 bytes, no NUL.
pub open spec fn is_storable_path(p: Seq<char>) -> bool {
    byte_len(p) <= 1024 && !p.contains('\0')
}

/// The address of a YouTube short.
pub open spec fn youtube_short_url(id: Seq<char>) -> Seq<char> {
    "https://www.youtube.com/shorts/"@ + id
}

/// The address of a TikTok video, used where no share link is usable.
pub open spec fn tiktok_video_url(id: Seq<char>) -> Seq<char> {
    "https://www.tiktok.com/video/"@ + id
}

/// The link kept for a TikTok video: its share link where that may be
/// opened, else the video's own address.
pub open spec fn tiktok_link(share: Seq<char>, id: Seq<char>) -> Seq<char> {
    match platform_url_spec(share) {
        Ok(u) => u,
        Err(_) => tiktok_video_url(id),
    }
}

/// The stored form of an item that the front end hands over, or why it
/// is refused.
pub open spec fn canonical_item_spec(item: MediaItemView) -> Result<MediaItemView, Seq<char>> {
    let title = canonical_title(item.title);
    let creator = canonical_creator(item.creator);
    if item.platform == "youtube"@ {
        if !is_youtube_id_spec(item.external_id) {
            Err(bad_video_id_msg())
        } else {
            Ok(
                MediaItemView {
                    platform: "youtube"@,
                    external_id: item.external_id,
                    title: title,
                    creator: creator,
                    url: youtube_short_url(item.external_id),
                    thumb: clean_thumb_spec(item.thumb),
                },
            )
        }
    } else if item.platform == "tiktok"@ {
        if !is_tiktok_id_spec(item.external_id) {
            Err(bad_video_id_msg())
        } else {
            Ok(
                MediaItemView {
                    platform: "tiktok"@,
                    external_id: item.external_id,
                    title: title,
                    creator: creator,
                    url: tiktok_link(item.url, item.external_id),
                    thumb: clean_thumb_spec(item.thumb),
                },
            )
        }
    } else if item.platform == "local"@ {
        if !is_local_id_spec(item.external_id) {
            Err(bad_entry_msg())
        } else if !is_storable_path(item.url) {
            Err(bad_path_msg())
        } else {
            Ok(
                MediaItemView {
                    platform: "local"@,
                    external_id: item.external_id,
                    title: title,
                    creator: creator,
                    url: item.url,
                    thumb: Seq::empty(),
                },
            )
        }
    } else {
        Err(unknown_platform_msg())
    }
}

pub open spec fn item_result_view(r: Result<MediaItem, String>) -> Result<MediaItemView, Seq<char>> {
    match r {
        Ok(m) => Ok(m@),
        Err(e) => Err(e@),
    }
}

/// The title as stored: trimmed, clipped to 180 characters, "Video" if empty.
pub fn canonical_title_of(raw: &str) -> (r: String)
    ensures
        r@ == canonical_title(raw@),
{
    let t = clip(trim(raw), 180);
    if t.as_str().is_empty() {
        owned("Video")
    } else {
        t
    }
}

/// The link of a YouTube short with the given id.
pub fn youtube_short_link(id: &str) -> (r: String)
    ensures
        r@ == youtube_short_url(id@),
{
    join("https://www.youtube.com/shorts/", id)
}

/// The link kept for a TikTok video with the given share link and id.
pub fn tiktok_link_of(share: &str, id: &str) -> (r: String)
    ensures
        r@ == tiktok_link(share@, id@),
{
    match ensure_platform_url(share) {
        Ok(u) => u,
        Err(_) => join("https://www.tiktok.com/video/", id),
    }
}

pub fn canonical_item(item: &MediaItem) -> (r: Result<MediaItem, String>)
    ensures
        item_result_view(r) == canonical_item_spec(item@),
{
    let title = canonical_title_of(item.title.as_str());
    let creator = clip(trim(item.creator.as_str()), 80);
    let platform = item.platform.as_str();
    let id = item.external_id.as_str();
    if str_eq(platform, "youtube") {
        if !is_youtube_id(id) {
            return Err(owned("Ungültige Video-ID."));
        }
        Ok(
            MediaItem {
                platform: owned("youtube"),
                external_id: item.external_id.clone(),
                title,
                creator,
                url: youtube_short_link(id),
                thumb: clean_thumb(item.thumb.as_str()),
            },
        )
    } else if str_eq(platform, "tiktok") {
        if !is_tiktok_id(id) {
            return Err(owned("Ungültige Video-ID."));
        }
        let url = tiktok_link_of(item.url.as_str(), id);
        Ok(
            MediaItem {
                platform: owned("tiktok"),
                external_id: item.external_id.clone(),
                title,
                creator,
                url,
                thumb: clean_thumb(item.thumb.as_str()),
            },
        )
    } else if str_eq(platform, "local") {
        if id.is_empty() || byte_length(id) > 20 || !all_chars_in(id, CharClass::Digit) {
            return Err(owned("Ungültiger Eintrag."));
        }
        if byte_length(item.url.as_str()) > 1024 || contains_char(item.url.as_str(), '\0') {
            return Err(owned("Ungültiger Dateipfad."));
        }
        Ok(
            MediaItem {
                platform: owned("local"),
                external_id: item.external_id.clone(),
                title,
                creator,
                url: item.url.clone(),
                thumb: String::new(),
            },
        )
    } else {
        Err(owned("Unbekannte Plattform."))
    }
}

/// What an accepted item looks like: a known platform, a valid id for it,
/// a non-empty title of at most 180 characters, a creator of at most 80,
/// and the link that the platform's rule gives.
pub proof fn lemma_canonical_item_shape(item: MediaItemView)
    ensures
        canonical_item_spec(item) matches Ok(v) ==> {
            &&& v.external_id == item.external_id
            &&& 1 <= v.title.len() <= 180
            &&& v.creator.len() <= 80
            &&& (v.platform == "youtube"@ && is_youtube_id_spec(v.external_id) && v.url
                == youtube_short_url(v.external_id)) || (v.platform == "tiktok"@
                && is_tiktok_id_spec(v.external_id) && v.url == tiktok_link(
                item.url,
                v.external_id,
            )) || (v.platform == "local"@ && is_local_id_spec(v.external_id)
                && is_storable_path(v.url) && v.thumb.len() == 0)
        },
        canonical_item_spec(item) is Ok ==> item.platform == "youtube"@ || item.platform
            == "tiktok"@ || item.platform == "local"@,
{
    reveal_strlit("Video");
}

/// Canonicalising an accepted item again changes nothing, for items whose
/// trimmed title has at most 180 characters and trimmed creator at most 80,
/// and whose kept thumbnail and TikTok link the URL rules give back
/// unchanged.
pub proof fn lemma_canonical_item_idempotent(item: MediaItemView)
    requires
        trim_spec(item.title).len() <= 180,
        trim_spec(item.creator).len() <= 80,
        canonical_item_spec(item) matches Ok(v) ==> (v.platform != "local"@ ==> clean_thumb_spec(v.thumb)
            == v.thumb),
        canonical_item_spec(item) matches Ok(v) ==> (v.platform == "tiktok"@ ==> platform_url_spec(v.url)
            == Ok::<Seq<char>, Seq<char>>(v.url)),
    ensures
        canonical_item_spec(item) matches Ok(v) ==> canonical_item_spec(v) == Ok::<MediaItemView, Seq<char>>(v),
{
    reveal_strlit("Video");
    reveal_strlit("youtube");
    reveal_strlit("tiktok");
    reveal_strlit("local");
    lemma_trim_idempotent(item.title);
    lemma_trim_idempotent(item.creator);
    let video = "Video"@;
    assert(!unicode_white_space(video[0]));
    assert(!unicode_white_space(video.last()));
    assert(trim_start_spec(video) == video);
    assert(trim_end_spec(video) == video);
    if let Ok(v) = canonical_item_spec(item) {
        assert(canonical_title(v.title) == v.title);
        assert(canonical_creator(v.creator) == v.creator);
        let w = canonical_item_spec(v)->Ok_0;
        assert(canonical_item_spec(v) is Ok);
        assert(w.platform == v.platform);
        assert(w.external_id == v.external_id);
        assert(w.title == v.title);
        assert(w.creator == v.creator);
        assert(w.url == v.url);
        assert(w.thumb == v.thumb);
    }
}

/// Whatever the platform, an accepted item keeps its id, its title
/// trimmed and clipped to 180 characters ("Video" only when nothing is left
/// after trimming), and its creator trimmed and clipped to 80 characters; a
/// local item also keeps its path as its link and has no thumbnail.
pub proof fn lemma_canonical_item_keeps_labels(item: MediaItemView)
    ensures
        canonical_item_spec(item) matches Ok(v) ==> {
            &&& v.platform == item.platform
            &&& v.external_id == item.external_id
            &&& v.title == (if trim_spec(item.title).len() == 0 {
                "Video"@
            } else {
                clip_spec(trim_spec(item.title), 180)
            })
            &&& v.creator == clip_spec(trim_spec(item.creator), 80)
            &&& item.platform == "local"@ ==> v.url == item.url && v.thumb.len() == 0
        },
{
    reveal_strlit("youtube");
    reveal_strlit("tiktok");
    reveal_strlit("local");
    lemma_clip_idempotent(trim_spec(item.title), 180);
    if let Ok(v) = canonical_item_spec(item) {
        assert(v.platform == item.platform);
        assert(v.external_id == item.external_id);
        assert(v.title == canonical_title(item.title));
        assert(v.creator == canonical_creator(item.creator));
    }
}

pub open spec fn client_id_too_long_msg() -> Seq<char> {
    "Client-ID ist zu lang."@
}

pub open spec fn client_id_bad_chars_msg() -> Seq<char> {
    "Client-ID enthält ungültige Zeichen."@
}

/// An OAuth client id or key as stored: trimmed; empty is allowed;
/// otherwise at most 200 bytes from `A-Z a-z 0-9 - _ .`.
pub open spec fn validate_client_id_spec(value: Seq<char>) -> Result<Seq<char>, Seq<char>> {
    let v = trim_spec(value);
    if v.len() == 0 {
        Ok(Seq::empty())
    } else if byte_len(v) > 200 {
        Err(client_id_too_long_msg())
    } else if !all_in_class(CharClass::ClientId, v) {
        Err(client_id_bad_chars_msg())
    } else {
        Ok(v)
    }
}

pub fn validate_client_id(value: &str) -> (r: Result<String, String>)
    ensures
        string_result_view(r) == validate_client_id_spec(value@),
{
    let value = trim(value);
    if value.is_empty() {
        return Ok(String::new());
    }
    if byte_length(value) > 200 {
        return Err(owned("Client-ID ist zu lang."));
    }
    if !all_chars_in(value, CharClass::ClientId) {
        return Err(owned("Client-ID enthält ungültige Zeichen."));
    }
    Ok(owned(value))
}

/// A character that may not appear in a client secret.
pub open spec fn secret_forbidden_char(c: char) -> bool {
    unicode_control(c) || unicode_white_space(c)
}

pub open spec fn bad_secret_msg() -> Seq<char> {
    "Secret ist ungültig."@
}

/// A client secret as stored: trimmed; empty is allowed; otherwise at most
/// 300 bytes with no control or whitespace character.
pub open spec fn validate_secret_spec(value: Seq<char>) -> Result<Seq<char>, Seq<char>> {
    let v = trim_spec(value);
    if v.len() == 0 {
        Ok(Seq::empty())
    } else if byte_len(v) > 300 || exists|i: int|
        0 <= i < v.len() && #[trigger] secret_forbidden_char(v[i]) {
        Err(bad_secret_msg())
    } else {
        Ok(v)
    }
}

fn has_forbidden_secret_char(s: &str) -> (r: bool)
    ensures
        r == exists|i: int| 0 <= i < s@.len() && #[trigger] secret_forbidden_char(s@[i]),
{
    let n = s.unicode_len();
    let mut i: usize = 0;
    while i < n
        invariant
            n == s@.len(),
            i <= n,
            forall|j: int| 0 <= j < i ==> !#[trigger] secret_forbidden_char(s@[j]),
        decreases n - i,
    {
        let c = s.get_char(i);
        if is_control(c) || is_whitespace(c) {
            assert(secret_forbidden_char(s@[i as int]));
            return true;
        }
        i = i + 1;
    }
    false
}

pub fn validate_secret(value: &str) -> (r: Result<String, String>)
    ensures
        string_result_view(r) == validate_secret_spec(value@),
{
    let value = trim(value);
    if value.is_empty() {
        return Ok(String::new());
    }
    if byte_length(value) > 300 || has_forbidden_secret_char(value) {
        return Err(owned("Secret ist ungültig."));
    }
    Ok(owned(value))
}

/// Validating an already validated value gives it back unchanged.
pub proof fn lemma_validate_idempotent(value: Seq<char>)
    ensures
        validate_client_id_spec(value) matches Ok(v) ==> validate_client_id_spec(v) == Ok::<
            Seq<char>,
            Seq<char>,
        >(v),
        validate_secret_spec(value) matches Ok(v) ==> validate_secret_spec(v) == Ok::<
            Seq<char>,
            Seq<char>,
        >(v),
{
    lemma_trim_idempotent(value);
    let e: Seq<char> = Seq::empty();
    assert(trim_spec(e) == e);
}

pub open spec fn settings_result_view(r: Result<Settings, String>) -> Result<SettingsView, Seq<char>> {
    match r {
        Ok(s) => Ok(s@),
        Err(e) => Err(e@),
    }
}

pub open spec fn known_performance_mode(m: Seq<char>) -> bool {
    m == "sparsam"@ || m == "standard"@ || m == "maximal"@
}

pub open spec fn known_language(m: Seq<char>) -> bool {
    m == "de"@ || m == "en"@
}

pub open spec fn known_theme(m: Seq<char>) -> bool {
    m == "dunkel"@ || m == "hell"@
}

pub open spec fn known_start_page(m: Seq<char>) -> bool {
    m == "start"@ || m == "shorts"@
}

/// Settings as stored, or the first reason they are refused: the four
/// choices must be known values, and both client ids must validate.
pub open spec fn validate_settings_spec(s: SettingsView) -> Result<SettingsView, Seq<char>> {
    if !known_performance_mode(s.performance_mode) {
        Err("Unbekannter Leistungsmodus."@)
    } else if !known_language(s.language) {
        Err("Unbekannte Sprache."@)
    } else if !known_theme(s.theme) {
        Err("Unbekanntes Design."@)
    } else if !known_start_page(s.start_page) {
        Err("Unbekannte Startseite."@)
    } else {
        match validate_client_id_spec(s.youtube_client_id) {
            Err(e) => Err(e),
            Ok(y) => match validate_client_id_spec(s.tiktok_client_key) {
                Err(e) => Err(e),
                Ok(t) => Ok(SettingsView { youtube_client_id: y, tiktok_client_key: t, ..s }),
            },
        }
    }
}

pub fn validate_settings(settings: Settings) -> (r: Result<Settings, String>)
    ensures
        settings_result_view(r) == validate_settings_spec(settings@),
{
    let pm = settings.performance_mode.as_str();
    if !(str_eq(pm, "sparsam") || str_eq(pm, "standard") || str_eq(pm, "maximal")) {
        return Err(owned("Unbekannter Leistungsmodus."));
    }
    let lang = settings.language.as_str();
    if !(str_eq(lang, "de") || str_eq(lang, "en")) {
        return Err(owned("Unbekannte Sprache."));
    }
    let theme = settings.theme.as_str();
    if !(str_eq(theme, "dunkel") || str_eq(theme, "hell")) {
        return Err(owned("Unbekanntes Design."));
    }
    let start = settings.start_page.as_str();
    if !(str_eq(start, "start") || str_eq(start, "shorts")) {
        return Err(owned("Unbekannte Startseite."));
    }
    let youtube_client_id = match validate_client_id(settings.youtube_client_id.as_str()) {
        Ok(v) => v,
        Err(e) => return Err(e),
    };
    let tiktok_client_key = match validate_client_id(settings.tiktok_client_key.as_str()) {
        Ok(v) => v,
        Err(e) => return Err(e),
    };
    Ok(
        Settings {
            performance_mode: settings.performance_mode,
            language: settings.language,
            theme: settings.theme,
            animations: settings.animations,
            autoplay: settings.autoplay,
            volume: settings.volume,
            start_page: settings.start_page,
            history_enabled: settings.history_enabled,
            youtube_client_id,
            tiktok_client_key,
            tiktok_secret_set: settings.tiktok_secret_set,
        },
    )
}

/// Settings are accepted exactly when the performance mode is `sparsam`,
/// `standard` or `maximal`, the language `de` or `en`, the theme `dunkel`
/// or `hell`, the start page `start` or `shorts`, and both client ids are
/// acceptable; accepted settings keep every field but the client ids,
/// which are kept trimmed.
pub proof fn lemma_validate_settings_accepts(s: SettingsView)
    ensures
        validate_settings_spec(s) is Ok <==> {
            &&& (s.performance_mode == "sparsam"@ || s.performance_mode == "standard"@ || s.performance_mode
                == "maximal"@)
            &&& (s.language == "de"@ || s.language == "en"@)
            &&& (s.theme == "dunkel"@ || s.theme == "hell"@)
            &&& (s.start_page == "start"@ || s.start_page == "shorts"@)
            &&& validate_client_id_spec(s.youtube_client_id) is Ok
            &&& validate_client_id_spec(s.tiktok_client_key) is Ok
        },
        validate_settings_spec(s) matches Ok(v) ==> {
            &&& v.performance_mode == s.performance_mode
            &&& v.language == s.language
            &&& v.theme == s.theme
            &&& v.animations == s.animations
            &&& v.autoplay == s.autoplay
            &&& v.volume == s.volume
            &&& v.start_page == s.start_page
            &&& v.history_enabled == s.history_enabled
            &&& v.tiktok_secret_set == s.tiktok_secret_set
            &&& v.youtube_client_id == trim_spec(s.youtube_client_id)
            &&& v.tiktok_client_key == trim_spec(s.tiktok_client_key)
        },
{
}

/// Validated settings validate again to themselves, and hold only known
/// choices and valid client ids.
pub proof fn lemma_validate_settings_idempotent(s: SettingsView)
    ensures
        validate_settings_spec(s) matches Ok(v) ==> {
            &&& validate_settings_spec(v) == Ok::<SettingsView, Seq<char>>(v)
            &&& known_performance_mode(v.performance_mode)
            &&& known_language(v.language)
            &&& known_theme(v.theme)
            &&& known_start_page(v.start_page)
            &&& validate_client_id_spec(v.youtube_client_id) == Ok::<Seq<char>, Seq<char>>(
                v.youtube_client_id,
            )
            &&& validate_client_id_spec(v.tiktok_client_key) == Ok::<Seq<char>, Seq<char>>(
                v.tiktok_client_key,
            )
        },
{
    lemma_validate_idempotent(s.youtube_client_id);
    lemma_validate_idempotent(s.tiktok_client_key);
}


/// Only safe links leave these checks: a thumbnail that is kept is the
/// serialization of an `https` URL on a YouTube or TikTok image host, and
/// a link that may be opened is the serialization of an `https` URL on a
/// YouTube or TikTok host.
pub proof fn lemma_kept_links_are_safe(raw: Seq<char>)
    ensures
        clean_thumb_spec(raw).len() > 0 ==> (url_parse(raw) matches Some(p) && p.0 == "https"@
            && thumb_host_allowed(host_or_empty(p)) && clean_thumb_spec(raw) == p.3),
        platform_url_spec(raw) matches Ok(u) ==> (url_parse(raw) matches Some(p) && p.0
            == "https"@ && platform_host(host_or_empty(p)) && u == p.3),
{
}

} // verus!
