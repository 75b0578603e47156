//! What is kept of YouTube's answers: the shorts feed, the subscribed
//! channels and the profile labels; the login address; and the YouTube
//! session.

use vstd::prelude::*;

use crate::feeds::{
    first_n, item_views, opt_view, or_default, pair, str_or, FEED_LIMIT,
};
use crate::model::{
    clean_thumb, clean_thumb_spec, is_youtube_id, is_youtube_id_spec, redirect_uri,
    youtube_short_link, youtube_short_url, Channel, MediaItem, MediaItemView,
};
use crate::json::{
    element, element_of, json_view, list_at, list_of, list_view, member, member_of, text_at, text_of, Json,
    JsonView,
};
use crate::oauth::Pkce;
use crate::session::{
    access_run, access_view, alive_run, bool_result_view, clear_plan, store_run, token_expiry_fits,
    Platform, TokenFields,
};
use crate::secrets::{calls_since, extends, run_updates, unit_view, Vault};
use crate::text::{byte_len, byte_length, clip, clip_spec, join, owned};
use crate::urls::{pairs_view, url_with_query, url_with_query_pairs};

verus! {

/// One result of a YouTube search, as far as it is read.
#[derive(Debug, Clone, PartialEq, Eq)]
pub struct YoutubeSearchEntry {
    /// `id.videoId`
    pub video_id: Option<String>,
    /// `snippet.title`
    pub title: Option<String>,
    /// `snippet.channelTitle`
    pub channel_title: Option<String>,
    /// `snippet.thumbnails.medium.url`
    pub thumbnail: Option<String>,
}

pub struct YoutubeSearchEntryView {
    pub video_id: Option<Seq<char>>,
    pub title: Option<Seq<char>>,
    pub channel_title: Option<Seq<char>>,
    pub thumbnail: Option<Seq<char>>,
}

impl View for YoutubeSearchEntry {
    type V = YoutubeSearchEntryView;

    open spec fn view(&self) -> YoutubeSearchEntryView {
        YoutubeSearchEntryView {
            video_id: opt_view(self.video_id),
            title: opt_view(self.title),
            channel_title: opt_view(self.channel_title),
            thumbnail: opt_view(self.thumbnail),
        }
    }
}

/// The item shown for a search result: none without a valid video id.
pub open spec fn youtube_item_of(e: YoutubeSearchEntryView) -> Option<MediaItemView> {
    match e.video_id {
        Some(id) => if is_youtube_id_spec(id) {
            Some(
                MediaItemView {
                    platform: "youtube"@,
                    external_id: id,
                    title: clip_spec(or_default(e.title, "Video"@), 180),
                    creator: clip_spec(or_default(e.channel_title, Seq::empty()), 80),
                    url: youtube_short_url(id),
                    thumb: clean_thumb_spec(or_default(e.thumbnail, Seq::empty())),
                },
            )
        } else {
            None
        },
        None => None,
    }
}

pub open spec fn youtube_items(es: Seq<YoutubeSearchEntryView>) -> Seq<MediaItemView>
    decreases es.len(),
{
    if es.len() == 0 {
        Seq::empty()
    } else {
        let rest = youtube_items(es.drop_last());
        match youtube_item_of(es.last()) {
            Some(m) => rest.push(m),
            None => rest,
        }
    }
}

pub open spec fn entry_views(v: Seq<YoutubeSearchEntry>) -> Seq<YoutubeSearchEntryView> {
    v.map_values(|e: YoutubeSearchEntry| e@)
}

/// The feed shown for a YouTube search answer: of its first eight results,
/// those with a valid video id, in order. No list gives an empty feed.
pub open spec fn youtube_feed_spec(list: Option<Seq<YoutubeSearchEntryView>>) -> Seq<MediaItemView> {
    match list {
        Some(es) => youtube_items(first_n(es, FEED_LIMIT as nat)),
        None => Seq::empty(),
    }
}

fn youtube_item(e: &YoutubeSearchEntry) -> (r: Option<MediaItem>)
    ensures
        (match r {
            Some(m) => Some(m@),
            None => None,
        }) == youtube_item_of(e@),
{
    let id = match &e.video_id {
        Some(id) => id.as_str(),
        None => return None,
    };
    if !is_youtube_id(id) {
        return None;
    }
    proof {
        reveal_strlit("");
        assert(""@ =~= Seq::<char>::empty());
    }
    Some(
        MediaItem {
            platform: owned("youtube"),
            external_id: owned(id),
            title: clip(str_or(&e.title, "Video"), 180),
            creator: clip(str_or(&e.channel_title, ""), 80),
            url: youtube_short_link(id),
            thumb: clean_thumb(str_or(&e.thumbnail, "")),
        },
    )
}

pub fn feed_items(list: Option<Vec<YoutubeSearchEntry>>) -> (r: Vec<MediaItem>)
    ensures
        item_views(r@) == youtube_feed_spec(
            match list {
                Some(v) => Some(entry_views(v@)),
                None => None,
            },
        ),
{
    let mut items: Vec<MediaItem> = Vec::new();
    let list = match list {
        Some(l) => l,
        None => {
            assert(item_views(items@) =~= Seq::<MediaItemView>::empty());
            return items;
        },
    };
    let ghost es = entry_views(list@);
    let n = if list.len() < FEED_LIMIT {
        list.len()
    } else {
        FEED_LIMIT
    };
    let mut i: usize = 0;
    assert(es.take(0) =~= Seq::<YoutubeSearchEntryView>::empty());
    assert(item_views(items@) =~= Seq::<MediaItemView>::empty());
    while i < n
        invariant
            es == entry_views(list@),
            n <= list@.len(),
            n == if list@.len() < FEED_LIMIT {
                list@.len()
            } else {
                FEED_LIMIT as nat
            },
            i <= n,
            item_views(items@) == youtube_items(es.take(i as int)),
        decreases n - i,
    {
        let ghost prev = es.take(i as int);
        let ghost next = es.take(i + 1);
        assert(next.drop_last() =~= prev);
        assert(next.last() == list@[i as int]@);
        match youtube_item(&list[i]) {
            Some(m) => {
                items.push(m);
                assert(item_views(items@) =~= youtube_items(prev).push(
                    items@[items@.len() - 1]@,
                ));
            },
            None => {},
        }
        i = i + 1;
    }
    proof {
        if list@.len() <= FEED_LIMIT {
            assert(es.take(n as int) =~= es);
        }
    }
    items
}

/// One subscription of a YouTube account, as far as it is read.
#[derive(Debug, Clone, PartialEq, Eq)]
pub struct SubscriptionEntry {
    /// `snippet.title`
    pub title: Option<String>,
    /// `snippet.resourceId.channelId`
    pub channel_id: Option<String>,
}

pub struct SubscriptionEntryView {
    pub title: Option<Seq<char>>,
    pub channel_id: Option<Seq<char>>,
}

impl View for SubscriptionEntry {
    type V = SubscriptionEntryView;

    open spec fn view(&self) -> SubscriptionEntryView {
        SubscriptionEntryView { title: opt_view(self.title), channel_id: opt_view(self.channel_id) }
    }
}

pub struct ChannelView {
    pub name: Seq<char>,
    pub handle: Seq<char>,
    pub url: Seq<char>,
}

impl View for Channel {
    type V = ChannelView;

    open spec fn view(&self) -> ChannelView {
        ChannelView { name: self.name@, handle: self.handle@, url: self.url@ }
    }
}

/// How many subscriptions are kept.
pub const SUBSCRIPTION_LIMIT: usize = 20;

/// The channel shown for a subscription: none without a channel id of 1 to
/// 64 bytes.
pub open spec fn channel_of(e: SubscriptionEntryView) -> Option<ChannelView> {
    let id = or_default(e.channel_id, Seq::empty());
    if id.len() == 0 || byte_len(id) > 64 {
        None
    } else {
        Some(
            ChannelView {
                name: clip_spec(or_default(e.title, "Kanal"@), 80),
                handle: Seq::empty(),
                url: "https://www.youtube.com/channel/"@ + id,
            },
        )
    }
}

pub open spec fn channels_of(es: Seq<SubscriptionEntryView>) -> Seq<ChannelView>
    decreases es.len(),
{
    if es.len() == 0 {
        Seq::empty()
    } else {
        let rest = channels_of(es.drop_last());
        match channel_of(es.last()) {
            Some(c) => rest.push(c),
            None => rest,
        }
    }
}

pub open spec fn channel_views(v: Seq<Channel>) -> Seq<ChannelView> {
    v.map_values(|c: Channel| c@)
}

pub open spec fn subscription_views(v: Seq<SubscriptionEntry>) -> Seq<SubscriptionEntryView> {
    v.map_values(|e: SubscriptionEntry| e@)
}

/// The channels shown for a subscriptions answer: of its first twenty
/// entries, those with a usable channel id, in order.
pub open spec fn subscriptions_spec(list: Option<Seq<SubscriptionEntryView>>) -> Seq<ChannelView> {
    match list {
        Some(es) => channels_of(first_n(es, SUBSCRIPTION_LIMIT as nat)),
        None => Seq::empty(),
    }
}

fn channel_from(e: &SubscriptionEntry) -> (r: Option<Channel>)
    ensures
        (match r {
            Some(c) => Some(c@),
            None => None,
        }) == channel_of(e@),
{
    proof {
        reveal_strlit("");
        assert(""@ =~= Seq::<char>::empty());
    }
    let id = str_or(&e.channel_id, "");
    if id.is_empty() || byte_length(id) > 64 {
        return None;
    }
    Some(
        Channel {
            name: clip(str_or(&e.title, "Kanal"), 80),
            handle: String::new(),
            url: join("https://www.youtube.com/channel/", id),
        },
    )
}

pub fn subscription_channels(list: Option<Vec<SubscriptionEntry>>) -> (r: Vec<Channel>)
    ensures
        channel_views(r@) == subscriptions_spec(
            match list {
                Some(v) => Some(subscription_views(v@)),
                None => None,
            },
        ),
{
    let mut channels: Vec<Channel> = Vec::new();
    let list = match list {
        Some(l) => l,
        None => {
            assert(channel_views(channels@) =~= Seq::<ChannelView>::empty());
            return channels;
        },
    };
    let ghost es = subscription_views(list@);
    let n = if list.len() < SUBSCRIPTION_LIMIT {
        list.len()
    } else {
        SUBSCRIPTION_LIMIT
    };
    let mut i: usize = 0;
    assert(es.take(0) =~= Seq::<SubscriptionEntryView>::empty());
    assert(channel_views(channels@) =~= Seq::<ChannelView>::empty());
    while i < n
        invariant
            es == subscription_views(list@),
            n <= list@.len(),
            n == if list@.len() < SUBSCRIPTION_LIMIT {
                list@.len()
            } else {
                SUBSCRIPTION_LIMIT as nat
            },
            i <= n,
            channel_views(channels@) == channels_of(es.take(i as int)),
        decreases n - i,
    {
        let ghost prev = es.take(i as int);
        let ghost next = es.take(i + 1);
        assert(next.drop_last() =~= prev);
        assert(next.last() == list@[i as int]@);
        match channel_from(&list[i]) {
            Some(c) => {
                channels.push(c);
                assert(channel_views(channels@) =~= channels_of(prev).push(
                    channels@[channels@.len() - 1]@,
                ));
            },
            None => {},
        }
        i = i + 1;
    }
    proof {
        if list@.len() <= SUBSCRIPTION_LIMIT {
            assert(es.take(n as int) =~= es);
        }
    }
    channels
}

/// Every item of a YouTube feed has a valid id and its short's link, and a
/// feed holds at most eight items.
pub proof fn lemma_youtube_feed_items_valid(es: Seq<YoutubeSearchEntryView>)
    ensures
        youtube_items(es).len() <= es.len(),
        forall|i: int|
            0 <= i < youtube_items(es).len() ==> {
                let m = #[trigger] youtube_items(es)[i];
                &&& m.platform == "youtube"@
                &&& is_youtube_id_spec(m.external_id)
                &&& m.url == youtube_short_url(m.external_id)
                &&& m.title.len() <= 180
                &&& m.creator.len() <= 80
            },
        youtube_feed_spec(Some(es)).len() <= FEED_LIMIT,
    decreases es.len(),
{
    if es.len() > 0 {
        lemma_youtube_feed_items_valid(es.drop_last());
    }
    let f = first_n(es, FEED_LIMIT as nat);
    if f.len() > 0 && f.len() < es.len() {
        lemma_youtube_feed_items_valid(f);
    } else if f.len() > 0 {
        assert(f == es);
    }
}

/// The labels of a YouTube account: its title (default "YouTube") and its
/// custom URL, each clipped to 80 characters.
pub fn profile_labels(title: Option<String>, custom_url: Option<String>) -> (r: (String, String))
    ensures
        r.0@ == clip_spec(or_default(opt_view(title), "YouTube"@), 80),
        r.1@ == clip_spec(or_default(opt_view(custom_url), Seq::empty()), 80),
{
    proof {
        reveal_strlit("");
        assert(""@ =~= Seq::<char>::empty());
    }
    (clip(str_or(&title, "YouTube"), 80), clip(str_or(&custom_url, ""), 80))
}

/// The login parameters sent to Google.
pub open spec fn youtube_auth_params(client_id: Seq<char>, state: Seq<char>, challenge: Seq<char>) -> Seq<(Seq<char>, Seq<char>)> {
    seq![
        ("client_id"@, client_id),
        ("redirect_uri"@, "http://127.0.0.1:38947/callback"@),
        ("response_type"@, "code"@),
        ("scope"@, "https://www.googleapis.com/auth/youtube.readonly"@),
        ("state"@, state),
        ("code_challenge"@, challenge),
        ("code_challenge_method"@, "S256"@),
        ("access_type"@, "offline"@),
        ("prompt"@, "consent"@),
    ]
}

/// The Google address that starts a YouTube login: the base with the login
/// parameters as its query (the empty text only where the fixed base were
/// not a URL).
pub fn auth_url(client_id: &str, pkce: &Pkce) -> (r: String)
    ensures
        r@ == (match url_with_query_pairs("https://accounts.google.com/o/oauth2/v2/auth"@,
            youtube_auth_params(client_id@, pkce.state@, pkce.challenge@)) {
            Some(u) => u,
            None => Seq::empty(),
        }),
{
    let mut params: Vec<(String, String)> = Vec::new();
    params.push(pair("client_id", client_id));
    params.push(pair("redirect_uri", redirect_uri()));
    params.push(pair("response_type", "code"));
    params.push(pair("scope", "https://www.googleapis.com/auth/youtube.readonly"));
    params.push(pair("state", pkce.state.as_str()));
    params.push(pair("code_challenge", pkce.challenge.as_str()));
    params.push(pair("code_challenge_method", "S256"));
    params.push(pair("access_type", "offline"));
    params.push(pair("prompt", "consent"));
    assert(pairs_view(params@) =~= youtube_auth_params(client_id@, pkce.state@, pkce.challenge@));
    match url_with_query("https://accounts.google.com/o/oauth2/v2/auth", &params) {
        Some(u) => u,
        None => String::new(),
    }
}

/// The YouTube access token, if it is still fresh (see
/// `session::current_access`).
pub fn current_access(vault: &mut Vault) -> (r: Result<String, ()>)
    ensures
        extends(old(vault).calls@, final(vault).calls@),
        exists|t: i64|
            #[trigger] access_run(calls_since(old(vault).calls@, final(vault).calls@), Platform::YouTube, t) == (
            access_view(r), calls_since(old(vault).calls@, final(vault).calls@).len()),
{
    crate::session::current_access(vault, Platform::YouTube)
}

/// Whether the YouTube session is alive (see `session::session_alive`).
pub fn session_alive(vault: &mut Vault) -> (r: Result<bool, String>)
    ensures
        extends(old(vault).calls@, final(vault).calls@),
        exists|t: i64|
            #[trigger] alive_run(calls_since(old(vault).calls@, final(vault).calls@), Platform::YouTube, t) == (
            bool_result_view(r), calls_since(old(vault).calls@, final(vault).calls@).len()),
{
    crate::session::session_alive(vault, Platform::YouTube)
}

/// Removes the YouTube tokens (see `session::clear_session`).
pub fn clear_session(vault: &mut Vault) -> (r: Result<(), String>)
    ensures
        extends(old(vault).calls@, final(vault).calls@),
        run_updates(calls_since(old(vault).calls@, final(vault).calls@), clear_plan(Platform::YouTube))
            == (unit_view(r), calls_since(old(vault).calls@, final(vault).calls@).len()),
{
    crate::session::clear_session(vault, Platform::YouTube)
}

/// Stores what a YouTube token answer received at `now` holds (see
/// `session::store_token_value`).
pub fn store_token_value(vault: &mut Vault, token: &TokenFields, now: i64) -> (r: Result<(), String>)
    requires
        token_expiry_fits(now, token.expires_in),
    ensures
        extends(old(vault).calls@, final(vault).calls@),
        store_run(calls_since(old(vault).calls@, final(vault).calls@), Platform::YouTube, *token, now)
            == (unit_view(r), calls_since(old(vault).calls@, final(vault).calls@).len()),
{
    crate::session::store_token_value(vault, Platform::YouTube, token, now)
}

/// A search result as it is read from the answer of the search API.
pub open spec fn search_entry_spec(e: JsonView) -> YoutubeSearchEntryView {
    let snippet = member(Some(e), "snippet"@);
    YoutubeSearchEntryView {
        video_id: text_of(member(member(Some(e), "id"@), "videoId"@)),
        title: text_of(member(snippet, "title"@)),
        channel_title: text_of(member(snippet, "channelTitle"@)),
        thumbnail: text_of(member(member(member(snippet, "thumbnails"@), "medium"@), "url"@)),
    }
}

/// The search results of an answer: its `items` list, when it is one.
pub open spec fn search_entries_spec(v: JsonView) -> Option<Seq<YoutubeSearchEntryView>> {
    match list_of(member(Some(v), "items"@)) {
        Some(xs) => Some(xs.map_values(|e: JsonView| search_entry_spec(e))),
        None => None,
    }
}

/// One search result of an answer.
pub fn search_entry_of(e: &Json) -> (r: YoutubeSearchEntry)
    ensures
        r@ == search_entry_spec(json_view(*e)),
{
    let snippet = member_of(Some(e), "snippet");
    YoutubeSearchEntry {
        video_id: text_at(member_of(member_of(Some(e), "id"), "videoId")),
        title: text_at(member_of(snippet, "title")),
        channel_title: text_at(member_of(snippet, "channelTitle")),
        thumbnail: text_at(member_of(member_of(member_of(snippet, "thumbnails"), "medium"), "url")),
    }
}

/// The search results of an answer of the search API.
pub fn search_entries(v: &Json) -> (r: Option<Vec<YoutubeSearchEntry>>)
    ensures
        (match r {
            Some(es) => Some(entry_views(es@)),
            None => None,
        }) == search_entries_spec(json_view(*v)),
{
    let items = match list_at(member_of(Some(v), "items")) {
        Some(xs) => xs,
        None => return None,
    };
    let mut out: Vec<YoutubeSearchEntry> = Vec::new();
    let mut i: usize = 0;
    while i < items.len()
        invariant
            i <= items@.len(),
            out@.len() == i,
            forall|j: int| 0 <= j < i ==> #[trigger] out@[j]@ == search_entry_spec(json_view(items@[j])),
        decreases items.len() - i,
    {
        out.push(search_entry_of(&items[i]));
        i = i + 1;
    }
    assert(entry_views(out@) =~= list_view(items@).map_values(|e: JsonView| search_entry_spec(e)));
    Some(out)
}

/// A subscription as it is read from the answer of the subscriptions API.
pub open spec fn subscription_entry_spec(e: JsonView) -> SubscriptionEntryView {
    let snippet = member(Some(e), "snippet"@);
    SubscriptionEntryView {
        title: text_of(member(snippet, "title"@)),
        channel_id: text_of(member(member(snippet, "resourceId"@), "channelId"@)),
    }
}

/// The subscriptions of an answer: its `items` list, when it is one.
pub open spec fn subscription_entries_spec(v: JsonView) -> Option<Seq<SubscriptionEntryView>> {
    match list_of(member(Some(v), "items"@)) {
        Some(xs) => Some(xs.map_values(|e: JsonView| subscription_entry_spec(e))),
        None => None,
    }
}

/// One subscription of an answer.
pub fn subscription_entry_of(e: &Json) -> (r: SubscriptionEntry)
    ensures
        r@ == subscription_entry_spec(json_view(*e)),
{
    let snippet = member_of(Some(e), "snippet");
    SubscriptionEntry {
        title: text_at(member_of(snippet, "title")),
        channel_id: text_at(member_of(member_of(snippet, "resourceId"), "channelId")),
    }
}

/// The subscriptions of an answer of the subscriptions API.
pub fn subscription_entries(v: &Json) -> (r: Option<Vec<SubscriptionEntry>>)
    ensures
        (match r {
            Some(es) => Some(subscription_views(es@)),
            None => None,
        }) == subscription_entries_spec(json_view(*v)),
{
    let items = match list_at(member_of(Some(v), "items")) {
        Some(xs) => xs,
        None => return None,
    };
    let mut out: Vec<SubscriptionEntry> = Vec::new();
    let mut i: usize = 0;
    while i < items.len()
        invariant
            i <= items@.len(),
            out@.len() == i,
            forall|j: int| 0 <= j < i ==> #[trigger] out@[j]@ == subscription_entry_spec(json_view(items@[j])),
        decreases items.len() - i,
    {
        out.push(subscription_entry_of(&items[i]));
        i = i + 1;
    }
    assert(subscription_views(out@) =~= list_view(items@).map_values(|e: JsonView| subscription_entry_spec(e)));
    Some(out)
}

/// The channel title and custom address of an answer of the channels API:
/// those of the snippet of its first item.
pub open spec fn channel_fields_spec(v: JsonView) -> (Option<Seq<char>>, Option<Seq<char>>) {
    let snippet = member(element(member(Some(v), "items"@), 0), "snippet"@);
    (text_of(member(snippet, "title"@)), text_of(member(snippet, "customUrl"@)))
}

/// The profile labels of an answer of the channels API.
pub fn profile_from(v: &Json) -> (r: (String, String))
    ensures
        r.0@ == clip_spec(or_default(channel_fields_spec(json_view(*v)).0, "YouTube"@), 80),
        r.1@ == clip_spec(or_default(channel_fields_spec(json_view(*v)).1, Seq::empty()), 80),
{
    let snippet = member_of(element_of(member_of(Some(v), "items"), 0), "snippet");
    profile_labels(text_at(member_of(snippet, "title")), text_at(member_of(snippet, "customUrl")))
}

/// Each item made from search results comes from a result with its id and
/// shows that result's title, clipped, or "Video" when it has none.
proof fn lemma_youtube_items_from_entries(es: Seq<YoutubeSearchEntryView>)
    ensures
        forall|i: int|
            0 <= i < youtube_items(es).len() ==> exists|j: int|
                0 <= j < es.len() && #[trigger] es[j].video_id == Some(#[trigger] youtube_items(es)[i].external_id)
                    && youtube_items(es)[i].title == (match es[j].title {
                    Some(t) => clip_spec(t, 180),
                    None => "Video"@,
                }) && youtube_items(es)[i].platform == "youtube"@,
    decreases es.len(),
{
    reveal_strlit("Video");
    if es.len() > 0 {
        let d = es.drop_last();
        lemma_youtube_items_from_entries(d);
        let items = youtube_items(es);
        let rest = youtube_items(d);
        assert forall|i: int| 0 <= i < items.len() implies exists|j: int|
            0 <= j < es.len() && #[trigger] es[j].video_id == Some(#[trigger] items[i].external_id)
                && items[i].title == (match es[j].title {
                Some(t) => clip_spec(t, 180),
                None => "Video"@,
            }) && items[i].platform == "youtube"@ by {
            if i < rest.len() {
                assert(items[i] == rest[i]);
                let j = choose|j: int|
                    0 <= j < d.len() && #[trigger] d[j].video_id == Some(#[trigger] rest[i].external_id)
                        && rest[i].title == (match d[j].title {
                        Some(t) => clip_spec(t, 180),
                        None => "Video"@,
                    }) && rest[i].platform == "youtube"@;
                assert(d[j] == es[j]);
            } else {
                let j = es.len() - 1;
                assert(es[j] == es.last());
            }
        }
    }
}

/// Every item of a YouTube feed comes from one of the first eight search
/// results with that video id, and shows that result's title clipped to
/// 180 characters, or "Video" when the result has no title.
pub proof fn lemma_youtube_feed_titles(es: Seq<YoutubeSearchEntryView>)
    ensures
        forall|i: int|
            0 <= i < youtube_feed_spec(Some(es)).len() ==> exists|j: int|
                0 <= j < es.len() && j < 8 && #[trigger] es[j].video_id == Some(
                    #[trigger] youtube_feed_spec(Some(es))[i].external_id,
                ) && youtube_feed_spec(Some(es))[i].title == (match es[j].title {
                    Some(t) => clip_spec(t, 180),
                    None => "Video"@,
                }),
{
    let f = first_n(es, FEED_LIMIT as nat);
    lemma_youtube_items_from_entries(f);
    let feed = youtube_feed_spec(Some(es));
    assert forall|i: int| 0 <= i < feed.len() implies exists|j: int|
        0 <= j < es.len() && j < 8 && #[trigger] es[j].video_id == Some(#[trigger] feed[i].external_id)
            && feed[i].title == (match es[j].title {
            Some(t) => clip_spec(t, 180),
            None => "Video"@,
        }) by {
        let j = choose|j: int|
            0 <= j < f.len() && #[trigger] f[j].video_id == Some(#[trigger] youtube_items(f)[i].external_id)
                && youtube_items(f)[i].title == (match f[j].title {
                Some(t) => clip_spec(t, 180),
                None => "Video"@,
            }) && youtube_items(f)[i].platform == "youtube"@;
        assert(f[j] == es[j]);
    }
}

} // verus!
