//! What is kept of TikTok's answers: the video feed and the profile
//! labels; the login address; and the TikTok session.

use vstd::prelude::*;

use crate::feeds::{
    first_n, item_views, opt_view, or_default, pair, str_or, FEED_LIMIT,
};
use crate::model::{
    clean_thumb, clean_thumb_spec, is_tiktok_id, is_tiktok_id_spec, redirect_uri, tiktok_link,
    tiktok_link_of, MediaItem, MediaItemView,
};
use crate::json::{json_view, list_at, list_of, list_view, member, member_of, text_at, text_of, Json, JsonView};
use crate::oauth::Pkce;
use crate::session::{
    access_run, access_view, alive_run, bool_result_view, clear_plan, store_run, token_expiry_fits,
    Platform, TokenFields,
};
use crate::secrets::{calls_since, extends, run_updates, unit_view, Vault};
use crate::text::{clip, clip_spec, join, owned, str_eq};
use crate::urls::{pairs_view, url_with_query, url_with_query_pairs};

verus! {

/// One video of a TikTok account, as far as it is read.
#[derive(Debug, Clone, PartialEq, Eq)]
pub struct TiktokVideo {
    pub id: Option<String>,
    pub title: Option<String>,
    pub share_url: Option<String>,
    pub cover_image_url: Option<String>,
}

pub struct TiktokVideoView {
    pub id: Option<Seq<char>>,
    pub title: Option<Seq<char>>,
    pub share_url: Option<Seq<char>>,
    pub cover_image_url: Option<Seq<char>>,
}

impl View for TiktokVideo {
    type V = TiktokVideoView;

    open spec fn view(&self) -> TiktokVideoView {
        TiktokVideoView {
            id: opt_view(self.id),
            title: opt_view(self.title),
            share_url: opt_view(self.share_url),
            cover_image_url: opt_view(self.cover_image_url),
        }
    }
}

/// The item shown for a TikTok video: none without a valid id. The
/// creator is the account's stored display name.
pub open spec fn tiktok_item_of(v: TiktokVideoView, creator: Seq<char>) -> Option<MediaItemView> {
    match v.id {
        Some(id) => if is_tiktok_id_spec(id) {
            Some(
                MediaItemView {
                    platform: "tiktok"@,
                    external_id: id,
                    title: clip_spec(or_default(v.title, "Video"@), 180),
                    creator: clip_spec(creator, 80),
                    url: tiktok_link(or_default(v.share_url, Seq::empty()), id),
                    thumb: clean_thumb_spec(or_default(v.cover_image_url, Seq::empty())),
                },
            )
        } else {
            None
        },
        None => None,
    }
}

pub open spec fn tiktok_items(vs: Seq<TiktokVideoView>, creator: Seq<char>) -> Seq<MediaItemView>
    decreases vs.len(),
{
    if vs.len() == 0 {
        Seq::empty()
    } else {
        let rest = tiktok_items(vs.drop_last(), creator);
        match tiktok_item_of(vs.last(), creator) {
            Some(m) => rest.push(m),
            None => rest,
        }
    }
}

pub open spec fn video_views(v: Seq<TiktokVideo>) -> Seq<TiktokVideoView> {
    v.map_values(|e: TiktokVideo| e@)
}

pub open spec fn tiktok_unavailable_msg() -> Seq<char> {
    "Die Verbindung zu TikTok ist momentan nicht verfügbar."@
}

/// The feed shown for a TikTok video list answer: an error code other
/// than `ok` refuses it; else, of its first eight videos, those with a
/// valid id, in order.
pub open spec fn tiktok_feed_spec(
    error_code: Option<Seq<char>>,
    list: Option<Seq<TiktokVideoView>>,
    creator: Seq<char>,
) -> Result<Seq<MediaItemView>, Seq<char>> {
    if error_code is Some && error_code.unwrap() != "ok"@ {
        Err(tiktok_unavailable_msg())
    } else {
        match list {
            Some(vs) => Ok(tiktok_items(first_n(vs, FEED_LIMIT as nat), creator)),
            None => Ok(Seq::empty()),
        }
    }
}

fn tiktok_item(v: &TiktokVideo, creator: &str) -> (r: Option<MediaItem>)
    ensures
        (match r {
            Some(m) => Some(m@),
            None => None,
        }) == tiktok_item_of(v@, creator@),
{
    let id = match &v.id {
        Some(id) => id.as_str(),
        None => return None,
    };
    if !is_tiktok_id(id) {
        return None;
    }
    proof {
        reveal_strlit("");
        assert(""@ =~= Seq::<char>::empty());
    }
    Some(
        MediaItem {
            platform: owned("tiktok"),
            external_id: owned(id),
            title: clip(str_or(&v.title, "Video"), 180),
            creator: clip(creator, 80),
            url: tiktok_link_of(str_or(&v.share_url, ""), id),
            thumb: clean_thumb(str_or(&v.cover_image_url, "")),
        },
    )
}

pub fn feed_items(
    error_code: Option<String>,
    list: Option<Vec<TiktokVideo>>,
    creator: &str,
) -> (r: Result<Vec<MediaItem>, String>)
    ensures
        (match r {
            Ok(v) => Ok(item_views(v@)),
            Err(e) => Err(e@),
        }) == tiktok_feed_spec(
            opt_view(error_code),
            match list {
                Some(v) => Some(video_views(v@)),
                None => None,
            },
            creator@,
        ),
{
    match &error_code {
        Some(code) => {
            if !str_eq(code.as_str(), "ok") {
                return Err(owned("Die Verbindung zu TikTok ist momentan nicht verfügbar."));
            }
        },
        None => {},
    }
    let mut items: Vec<MediaItem> = Vec::new();
    let list = match list {
        Some(l) => l,
        None => {
            assert(item_views(items@) =~= Seq::<MediaItemView>::empty());
            return Ok(items);
        },
    };
    let ghost vs = video_views(list@);
    let n = if list.len() < FEED_LIMIT {
        list.len()
    } else {
        FEED_LIMIT
    };
    let mut i: usize = 0;
    assert(vs.take(0) =~= Seq::<TiktokVideoView>::empty());
    assert(item_views(items@) =~= Seq::<MediaItemView>::empty());
    while i < n
        invariant
            vs == video_views(list@),
            n <= list@.len(),
            n == if list@.len() < FEED_LIMIT {
                list@.len()
            } else {
                FEED_LIMIT as nat
            },
            i <= n,
            item_views(items@) == tiktok_items(vs.take(i as int), creator@),
        decreases n - i,
    {
        let ghost prev = vs.take(i as int);
        let ghost next = vs.take(i + 1);
        assert(next.drop_last() =~= prev);
        assert(next.last() == list@[i as int]@);
        match tiktok_item(&list[i], creator) {
            Some(m) => {
                items.push(m);
                assert(item_views(items@) =~= tiktok_items(prev, creator@).push(
                    items@[items@.len() - 1]@,
                ));
            },
            None => {},
        }
        i = i + 1;
    }
    proof {
        if list@.len() <= FEED_LIMIT {
            assert(vs.take(n as int) =~= vs);
        }
    }
    Ok(items)
}

/// The labels of a TikTok account: its display name (default "TikTok")
/// clipped to 80 characters, and no handle.
pub fn profile_labels(display_name: Option<String>) -> (r: (String, String))
    ensures
        r.0@ == clip_spec(or_default(opt_view(display_name), "TikTok"@), 80),
        r.1@.len() == 0,
{
    (clip(str_or(&display_name, "TikTok"), 80), String::new())
}

/// The login parameters sent to TikTok.
pub open spec fn tiktok_auth_params(client_key: Seq<char>, state: Seq<char>, challenge: Seq<char>) -> Seq<(Seq<char>, Seq<char>)> {
    seq![
        ("client_key"@, client_key),
        ("response_type"@, "code"@),
        ("scope"@, "user.info.basic,video.list"@),
        ("redirect_uri"@, "http://127.0.0.1:38947/callback"@),
        ("state"@, state),
        ("code_challenge"@, challenge),
        ("code_challenge_method"@, "S256"@),
    ]
}

/// The TikTok address that starts a TikTok login.
pub fn auth_url(client_key: &str, pkce: &Pkce) -> (r: String)
    ensures
        r@ == (match url_with_query_pairs("https://www.tiktok.com/v2/auth/authorize/"@,
            tiktok_auth_params(client_key@, pkce.state@, pkce.challenge@)) {
            Some(u) => u,
            None => Seq::empty(),
        }),
{
    let mut params: Vec<(String, String)> = Vec::new();
    params.push(pair("client_key", client_key));
    params.push(pair("response_type", "code"));
    params.push(pair("scope", "user.info.basic,video.list"));
    params.push(pair("redirect_uri", redirect_uri()));
    params.push(pair("state", pkce.state.as_str()));
    params.push(pair("code_challenge", pkce.challenge.as_str()));
    params.push(pair("code_challenge_method", "S256"));
    assert(pairs_view(params@) =~= tiktok_auth_params(client_key@, pkce.state@, pkce.challenge@));
    match url_with_query("https://www.tiktok.com/v2/auth/authorize/", &params) {
        Some(u) => u,
        None => String::new(),
    }
}


/// The TikTok access token, if it is still fresh (see
/// `session::current_access`).
pub fn current_access(vault: &mut Vault) -> (r: Result<String, ()>)
    ensures
        extends(old(vault).calls@, final(vault).calls@),
        exists|t: i64|
            #[trigger] access_run(calls_since(old(vault).calls@, final(vault).calls@), Platform::TikTok, t) == (
            access_view(r), calls_since(old(vault).calls@, final(vault).calls@).len()),
{
    crate::session::current_access(vault, Platform::TikTok)
}

/// Whether the TikTok session is alive (see `session::session_alive`).
pub fn session_alive(vault: &mut Vault) -> (r: Result<bool, String>)
    ensures
        extends(old(vault).calls@, final(vault).calls@),
        exists|t: i64|
            #[trigger] alive_run(calls_since(old(vault).calls@, final(vault).calls@), Platform::TikTok, t) == (
            bool_result_view(r), calls_since(old(vault).calls@, final(vault).calls@).len()),
{
    crate::session::session_alive(vault, Platform::TikTok)
}

/// Removes the TikTok tokens (see `session::clear_session`).
pub fn clear_session(vault: &mut Vault) -> (r: Result<(), String>)
    ensures
        extends(old(vault).calls@, final(vault).calls@),
        run_updates(calls_since(old(vault).calls@, final(vault).calls@), clear_plan(Platform::TikTok))
            == (unit_view(r), calls_since(old(vault).calls@, final(vault).calls@).len()),
{
    crate::session::clear_session(vault, Platform::TikTok)
}

/// Stores what a TikTok token answer received at `now` holds (see
/// `session::store_token_value`).
pub fn store_token_value(vault: &mut Vault, token: &TokenFields, now: i64) -> (r: Result<(), String>)
    requires
        token_expiry_fits(now, token.expires_in),
    ensures
        extends(old(vault).calls@, final(vault).calls@),
        store_run(calls_since(old(vault).calls@, final(vault).calls@), Platform::TikTok, *token, now)
            == (unit_view(r), calls_since(old(vault).calls@, final(vault).calls@).len()),
{
    crate::session::store_token_value(vault, Platform::TikTok, token, now)
}

/// A video as it is read from the answer of the video list API.
pub open spec fn video_spec(e: JsonView) -> TiktokVideoView {
    TiktokVideoView {
        id: text_of(member(Some(e), "id"@)),
        title: text_of(member(Some(e), "title"@)),
        share_url: text_of(member(Some(e), "share_url"@)),
        cover_image_url: text_of(member(Some(e), "cover_image_url"@)),
    }
}

/// The videos of an answer: its `data.videos` list, when it is one.
pub open spec fn videos_spec(v: JsonView) -> Option<Seq<TiktokVideoView>> {
    match list_of(member(member(Some(v), "data"@), "videos"@)) {
        Some(xs) => Some(xs.map_values(|e: JsonView| video_spec(e))),
        None => None,
    }
}

/// The error code of an answer: its `error.code` text.
pub open spec fn error_code_spec(v: JsonView) -> Option<Seq<char>> {
    text_of(member(member(Some(v), "error"@), "code"@))
}

/// One video of an answer.
pub fn video_of(e: &Json) -> (r: TiktokVideo)
    ensures
        r@ == video_spec(json_view(*e)),
{
    TiktokVideo {
        id: text_at(member_of(Some(e), "id")),
        title: text_at(member_of(Some(e), "title")),
        share_url: text_at(member_of(Some(e), "share_url")),
        cover_image_url: text_at(member_of(Some(e), "cover_image_url")),
    }
}

/// The videos of an answer of the video list API.
pub fn videos_of(v: &Json) -> (r: Option<Vec<TiktokVideo>>)
    ensures
        (match r {
            Some(es) => Some(video_views(es@)),
            None => None,
        }) == videos_spec(json_view(*v)),
{
    let items = match list_at(member_of(member_of(Some(v), "data"), "videos")) {
        Some(xs) => xs,
        None => return None,
    };
    let mut out: Vec<TiktokVideo> = Vec::new();
    let mut i: usize = 0;
    while i < items.len()
        invariant
            i <= items@.len(),
            out@.len() == i,
            forall|j: int| 0 <= j < i ==> #[trigger] out@[j]@ == video_spec(json_view(items@[j])),
        decreases items.len() - i,
    {
        out.push(video_of(&items[i]));
        i = i + 1;
    }
    assert(video_views(out@) =~= list_view(items@).map_values(|e: JsonView| video_spec(e)));
    Some(out)
}

/// The error code of an answer of the video list API.
pub fn error_code_of(v: &Json) -> (r: Option<String>)
    ensures
        opt_view(r) == error_code_spec(json_view(*v)),
{
    text_at(member_of(member_of(Some(v), "error"), "code"))
}

/// The display name of an answer of the user info API: its
/// `data.user.display_name` text.
pub open spec fn display_name_spec(v: JsonView) -> Option<Seq<char>> {
    text_of(member(member(member(Some(v), "data"@), "user"@), "display_name"@))
}

/// The profile labels of an answer of the user info API.
pub fn profile_from(v: &Json) -> (r: (String, String))
    ensures
        r.0@ == clip_spec(or_default(display_name_spec(json_view(*v)), "TikTok"@), 80),
        r.1@.len() == 0,
{
    profile_labels(text_at(member_of(member_of(member_of(Some(v), "data"), "user"), "display_name")))
}

/// Whether the feed needs the account's display name: only when the answer
/// carries no error (a missing code or `ok`) and has a video list.
pub fn creator_needed(error_code: &Option<String>, has_list: bool) -> (r: bool)
    ensures
        r == ((opt_view(*error_code) matches Some(c) ==> c == "ok"@) && has_list),
{
    let ok = match error_code {
        Some(c) => str_eq(c.as_str(), "ok"),
        None => true,
    };
    ok && has_list
}

/// Each item made from videos comes from a video with its id, shows that
/// video's title, clipped, or "Video" when it has none, and the account's
/// display name, clipped.
proof fn lemma_tiktok_items_from_videos(vs: Seq<TiktokVideoView>, creator: Seq<char>)
    ensures
        forall|i: int|
            0 <= i < tiktok_items(vs, creator).len() ==> exists|j: int|
                0 <= j < vs.len() && #[trigger] vs[j].id == Some(#[trigger] tiktok_items(vs, creator)[i].external_id)
                    && tiktok_items(vs, creator)[i].title == (match vs[j].title {
                    Some(t) => clip_spec(t, 180),
                    None => "Video"@,
                }) && tiktok_items(vs, creator)[i].creator == clip_spec(creator, 80),
    decreases vs.len(),
{
    reveal_strlit("Video");
    if vs.len() > 0 {
        let d = vs.drop_last();
        lemma_tiktok_items_from_videos(d, creator);
        let items = tiktok_items(vs, creator);
        let rest = tiktok_items(d, creator);
        assert forall|i: int| 0 <= i < items.len() implies exists|j: int|
            0 <= j < vs.len() && #[trigger] vs[j].id == Some(#[trigger] items[i].external_id)
                && items[i].title == (match vs[j].title {
                Some(t) => clip_spec(t, 180),
                None => "Video"@,
            }) && items[i].creator == clip_spec(creator, 80) by {
            if i < rest.len() {
                assert(items[i] == rest[i]);
                let j = choose|j: int|
                    0 <= j < d.len() && #[trigger] d[j].id == Some(#[trigger] rest[i].external_id)
                        && rest[i].title == (match d[j].title {
                        Some(t) => clip_spec(t, 180),
                        None => "Video"@,
                    }) && rest[i].creator == clip_spec(creator, 80);
                assert(d[j] == vs[j]);
            } else {
                let j = vs.len() - 1;
                assert(vs[j] == vs.last());
            }
        }
    }
}

/// Every item of an accepted TikTok feed comes from one of the first eight
/// videos with that id, shows that video's title clipped to 180
/// characters ("Video" when it has none), and the account's display name
/// clipped to 80 characters.
pub proof fn lemma_tiktok_feed_labels(error_code: Option<Seq<char>>, vs: Seq<TiktokVideoView>, creator: Seq<char>)
    ensures
        tiktok_feed_spec(error_code, Some(vs), creator) matches Ok(feed) ==> forall|i: int|
            0 <= i < feed.len() ==> exists|j: int|
                0 <= j < vs.len() && j < 8 && #[trigger] vs[j].id == Some(#[trigger] feed[i].external_id)
                    && feed[i].title == (match vs[j].title {
                    Some(t) => clip_spec(t, 180),
                    None => "Video"@,
                }) && feed[i].creator == clip_spec(creator, 80),
{
    let f = first_n(vs, FEED_LIMIT as nat);
    lemma_tiktok_items_from_videos(f, creator);
    if let Ok(feed) = tiktok_feed_spec(error_code, Some(vs), creator) {
        assert forall|i: int| 0 <= i < feed.len() implies exists|j: int|
            0 <= j < vs.len() && j < 8 && #[trigger] vs[j].id == Some(#[trigger] feed[i].external_id)
                && feed[i].title == (match vs[j].title {
                Some(t) => clip_spec(t, 180),
                None => "Video"@,
            }) && feed[i].creator == clip_spec(creator, 80) by {
            let j = choose|j: int|
                0 <= j < f.len() && #[trigger] f[j].id == Some(#[trigger] tiktok_items(f, creator)[i].external_id)
                    && tiktok_items(f, creator)[i].title == (match f[j].title {
                    Some(t) => clip_spec(t, 180),
                    None => "Video"@,
                }) && tiktok_items(f, creator)[i].creator == clip_spec(creator, 80);
            assert(f[j] == vs[j]);
        }
    }
}

} // verus!
