//! The login session of each platform: which secrets hold it, when an
//! access token counts as fresh, what is stored from a token answer, and
//! how an account is shown.

use vstd::prelude::*;

use crate::model::{validate_secret, validate_secret_spec, Account, string_result_view};
use crate::json::{int_at, int_of, json_view, member, member_of, text_at, text_of, text_view, Json, JsonView};
use crate::net::NetFail;
use crate::secrets::{
    apply_updates, calls_since, delete_secret, extends, get_secret, has_secret, lemma_calls_concat,
    lemma_read_then, lemma_run_updates_ok, lemma_updates_then, is_call, opt_secret_result_view, run_read, run_updates, set_secret,
    store_unavailable_msg, unit_view, update_op, updates_ops, StoreCall, StoreFailure, StoreOp, Update,
    Vault,
};
use crate::text::{join, owned, str_eq, parse_i64, parse_i64_spec, signed_decimal, signed_decimal_spec};
use crate::urls::pairs_view;

verus! {

/// The current time, read from the system clock.
#[verifier::external_type_specification]
#[verifier::external_body]
pub struct ExSystemTime(std::time::SystemTime);

/// Calls `SystemTime::now`; the time is not a function of anything, so
/// nothing is claimed of it.
#[verifier::external_body]
fn system_now() -> std::time::SystemTime {
    std::time::SystemTime::now()
}

/// Calls `SystemTime::duration_since` with `UNIX_EPOCH`, giving `None`
/// where the time lies before it. Nothing is claimed of the duration.
#[verifier::external_body]
fn since_unix_epoch(t: &std::time::SystemTime) -> Option<std::time::Duration> {
    t.duration_since(std::time::UNIX_EPOCH).ok()
}

/// Calls `Duration::as_secs`. The duration is opaque here, so nothing is
/// claimed of the number.
#[verifier::external_body]
fn whole_seconds(d: &std::time::Duration) -> u64 {
    d.as_secs()
}

/// A count of whole seconds since the epoch as an `i64` (converted with
/// `as`), 0 when the clock lies before the epoch.
pub fn seconds_or_zero(secs: Option<u64>) -> (r: i64)
    ensures
        r == (match secs {
            Some(s) => s as i64,
            None => 0i64,
        }),
{
    match secs {
        Some(s) => s as i64,
        None => 0,
    }
}

/// Seconds since the Unix epoch, or 0 when the clock is set before it.
/// The clock is read, so nothing is claimed of the value;
/// `seconds_or_zero` states the conversion.
pub fn now_secs() -> i64 {
    let secs = match since_unix_epoch(&system_now()) {
        Some(d) => Some(whole_seconds(&d)),
        None => None,
    };
    seconds_or_zero(secs)
}

/// The platforms that an account can be connected to.
#[derive(Debug, Clone, Copy, PartialEq, Eq, Structural)]
pub enum Platform {
    YouTube,
    TikTok,
}

/// The prefix of the platform's keys in the credential store and in the
/// settings table.
pub open spec fn platform_prefix(p: Platform) -> Seq<char> {
    match p {
        Platform::YouTube => "youtube"@,
        Platform::TikTok => "tiktok"@,
    }
}

pub fn prefix(p: Platform) -> (r: &'static str)
    ensures
        r@ == platform_prefix(p),
{
    match p {
        Platform::YouTube => "youtube",
        Platform::TikTok => "tiktok",
    }
}

/// The name of one of a platform's keys: the prefix, `_`, then the part.
pub open spec fn key_name(p: Platform, part: Seq<char>) -> Seq<char> {
    platform_prefix(p) + "_"@ + part
}

pub fn key_for(p: Platform, part: &str) -> (r: String)
    ensures
        r@ == key_name(p, part@),
{
    let mut r = join(prefix(p), "_");
    r.append(part);
    r
}

/// The access token when both it and its expiry are stored and the expiry
/// (read as an integer, 0 when unreadable) lies more than 20 seconds after
/// `now`.
pub open spec fn fresh_access(access: Option<Seq<char>>, expiry: Option<Seq<char>>, now: i64) -> Option<Seq<char>> {
    match (access, expiry) {
        (Some(a), Some(e)) => if expiry_value(e) > now + 20 {
            Some(a)
        } else {
            None
        },
        _ => None,
    }
}

/// A stored expiry as a number, 0 when it is not one.
pub open spec fn expiry_value(e: Seq<char>) -> int {
    match parse_i64_spec(e) {
        Some(v) => v as int,
        None => 0,
    }
}

fn expiry_of(e: &str) -> (r: i64)
    ensures
        r as int == expiry_value(e@),
{
    match parse_i64(e) {
        Some(v) => v,
        None => 0,
    }
}

pub open spec fn opt_view(o: Option<String>) -> Option<Seq<char>> {
    match o {
        Some(s) => Some(s@),
        None => None,
    }
}

/// The keys under which a platform's tokens are kept: the access token,
/// the refresh token and the expiry of either platform.
pub open spec fn token_key(k: Seq<char>) -> bool {
    ||| k == key_name(Platform::YouTube, "access"@)
    ||| k == key_name(Platform::YouTube, "refresh"@)
    ||| k == key_name(Platform::YouTube, "expiry"@)
    ||| k == key_name(Platform::TikTok, "access"@)
    ||| k == key_name(Platform::TikTok, "refresh"@)
    ||| k == key_name(Platform::TikTok, "expiry"@)
}

/// The access token that may be used at time `now`, if any.
pub fn access_if_fresh(access: Option<String>, expiry: Option<String>, now: i64) -> (r: Result<String, ()>)
    ensures
        (match r {
            Ok(a) => Some(a@),
            Err(_) => None,
        }) == fresh_access(opt_view(access), opt_view(expiry), now),
{
    match (access, expiry) {
        (Some(a), Some(e)) => {
            if (expiry_of(e.as_str()) as i128) > (now as i128) + 20 {
                Ok(a)
            } else {
                Err(())
            }
        },
        _ => Err(()),
    }
}

pub open spec fn access_view(r: Result<String, ()>) -> Result<Seq<char>, ()> {
    match r {
        Ok(a) => Ok(a@),
        Err(_) => Err(()),
    }
}

/// The reading of the platform's access token as the calls in `log` show
/// it, at time `t`: a lookup of its expiry, then (when that lookup worked)
/// a lookup of the token, which is given when both are stored and the
/// token is fresh at `t`; and how many calls were made.
pub open spec fn access_run(log: Seq<StoreCall>, p: Platform, t: i64) -> (Result<Seq<char>, ()>, nat) {
    let e = run_read(log, key_name(p, "expiry"@));
    match e.0 {
        Err(_) => (Err(()), e.1),
        Ok(exp) => {
            let a = run_read(log.skip(e.1 as int), key_name(p, "access"@));
            match a.0 {
                Err(_) => (Err(()), e.1 + a.1),
                Ok(acc) => (
                    match fresh_access(acc, exp, t) {
                        Some(x) => Ok(x),
                        None => Err(()),
                    },
                    e.1 + a.1,
                ),
            }
        },
    }
}

/// The platform's stored access token, if it is still fresh: the expiry
/// and the token are looked up under the platform's keys, and the token is
/// given when it is fresh at the time read from the clock. What the store
/// holds and the time are not claimed.
pub fn current_access(vault: &mut Vault, p: Platform) -> (r: Result<String, ()>)
    ensures
        extends(old(vault).calls@, final(vault).calls@),
        exists|t: i64|
            #[trigger] access_run(calls_since(old(vault).calls@, final(vault).calls@), p, t) == (
            access_view(r), calls_since(old(vault).calls@, final(vault).calls@).len()),
{
    let ghost l0 = vault.calls@;
    let expiry = match get_secret(vault, key_for(p, "expiry").as_str()) {
        Ok(v) => v,
        Err(_) => {
            assert(access_run(calls_since(l0, vault.calls@), p, 0) == (access_view(Err(())), calls_since(
                l0,
                vault.calls@,
            ).len()));
            return Err(());
        },
    };
    let ghost l1 = vault.calls@;
    let access = match get_secret(vault, key_for(p, "access").as_str()) {
        Ok(v) => v,
        Err(_) => {
            proof {
                lemma_calls_concat(l0, l1, vault.calls@);
                lemma_read_then(calls_since(l0, l1), calls_since(l1, vault.calls@), key_name(p, "expiry"@));
            }
            assert(access_run(calls_since(l0, vault.calls@), p, 0) == (access_view(Err(())), calls_since(
                l0,
                vault.calls@,
            ).len()));
            return Err(());
        },
    };
    let now = now_secs();
    proof {
        lemma_calls_concat(l0, l1, vault.calls@);
        lemma_read_then(calls_since(l0, l1), calls_since(l1, vault.calls@), key_name(p, "expiry"@));
    }
    let r = access_if_fresh(access, expiry, now);
    assert(access_run(calls_since(l0, vault.calls@), p, now) == (access_view(r), calls_since(l0, vault.calls@).len()));
    r
}

/// Whether a session counts as alive: it has a refresh token, or its
/// stored expiry (0 when unreadable) lies more than 15 seconds after `now`.
pub open spec fn alive_spec(has_refresh: bool, expiry: Option<Seq<char>>, now: i64) -> bool {
    if has_refresh {
        true
    } else {
        match expiry {
            Some(e) => expiry_value(e) > now + 15,
            None => false,
        }
    }
}

pub fn alive_from(has_refresh: bool, expiry: Option<String>, now: i64) -> (r: bool)
    ensures
        r == alive_spec(has_refresh, opt_view(expiry), now),
{
    if has_refresh {
        return true;
    }
    match expiry {
        Some(e) => (expiry_of(e.as_str()) as i128) > (now as i128) + 15,
        None => false,
    }
}

/// The check of the platform's session as the calls in `log` show it, at
/// time `t`: a lookup of the refresh token, and when none was found a
/// lookup of the expiry; and how many calls were made.
pub open spec fn alive_run(log: Seq<StoreCall>, p: Platform, t: i64) -> (Result<bool, Seq<char>>, nat) {
    let f = run_read(log, key_name(p, "refresh"@));
    if f.0 matches Ok(Some(_)) {
        (Ok(true), f.1)
    } else {
        let e = run_read(log.skip(f.1 as int), key_name(p, "expiry"@));
        (
            match e.0 {
                Err(m) => Err(m),
                Ok(None) => Ok(false),
                Ok(Some(x)) => Ok(alive_spec(false, Some(x), t)),
            },
            f.1 + e.1,
        )
    }
}

pub open spec fn bool_result_view(r: Result<bool, String>) -> Result<bool, Seq<char>> {
    match r {
        Ok(b) => Ok(b),
        Err(e) => Err(e@),
    }
}

proof fn lemma_refresh_expiry_keys(p: Platform)
    ensures
        key_name(p, "refresh"@) != key_name(p, "expiry"@),
{
    reveal_strlit("refresh");
    reveal_strlit("expiry");
    assert(key_name(p, "refresh"@).len() != key_name(p, "expiry"@).len());
}

/// Whether the platform's session is alive: a stored refresh token keeps
/// it alive; otherwise the stored expiry decides at the time read from the
/// clock. What the store holds and the time are not claimed.
pub fn session_alive(vault: &mut Vault, p: Platform) -> (r: Result<bool, String>)
    ensures
        extends(old(vault).calls@, final(vault).calls@),
        exists|t: i64|
            #[trigger] alive_run(calls_since(old(vault).calls@, final(vault).calls@), p, t) == (
            bool_result_view(r), calls_since(old(vault).calls@, final(vault).calls@).len()),
{
    let ghost l0 = vault.calls@;
    if has_secret(vault, key_for(p, "refresh").as_str()) {
        assert(alive_run(calls_since(l0, vault.calls@), p, 0) == (bool_result_view(Ok(true)), calls_since(
            l0,
            vault.calls@,
        ).len()));
        return Ok(true);
    }
    let ghost l1 = vault.calls@;
    let expiry = get_secret(vault, key_for(p, "expiry").as_str());
    let now = now_secs();
    proof {
        lemma_calls_concat(l0, l1, vault.calls@);
        lemma_read_then(calls_since(l0, l1), calls_since(l1, vault.calls@), key_name(p, "refresh"@));
        lemma_refresh_expiry_keys(p);
        let seg2 = calls_since(l1, vault.calls@);
        if seg2.len() > 0 {
            assert(seg2[0].op != StoreOp::Get(key_name(p, "refresh"@)));
        }
    }
    let r = match expiry {
        Ok(v) => {
            if v.is_none() {
                Ok(false)
            } else {
                Ok(alive_from(false, v, now))
            }
        },
        Err(e) => Err(e),
    };
    assert(alive_run(calls_since(l0, vault.calls@), p, now) == (bool_result_view(r), calls_since(l0, vault.calls@).len()));
    r
}

/// The removals that end the platform's session: its access token, its
/// refresh token and its expiry, in this order.
pub open spec fn clear_plan(p: Platform) -> Seq<StoreOp> {
    seq![
        StoreOp::Remove(key_name(p, "access"@)),
        StoreOp::Remove(key_name(p, "refresh"@)),
        StoreOp::Remove(key_name(p, "expiry"@)),
    ]
}

/// The removals that end the platform's session.
pub fn clear_updates(p: Platform) -> (r: Vec<Update>)
    ensures
        updates_ops(r@) == clear_plan(p),
{
    let mut v: Vec<Update> = Vec::new();
    v.push(Update::Remove(key_for(p, "access")));
    v.push(Update::Remove(key_for(p, "refresh")));
    v.push(Update::Remove(key_for(p, "expiry")));
    assert(updates_ops(v@) =~= clear_plan(p));
    v
}

/// Removes the platform's access token, refresh token and expiry, in this
/// order, stopping at the first failure. Whether the store succeeds is not
/// claimed.
pub fn clear_session(vault: &mut Vault, p: Platform) -> (r: Result<(), String>)
    ensures
        extends(old(vault).calls@, final(vault).calls@),
        run_updates(calls_since(old(vault).calls@, final(vault).calls@), clear_plan(p))
            == (unit_view(r), calls_since(old(vault).calls@, final(vault).calls@).len()),
{
    apply_updates(vault, &clear_updates(p))
}

/// The fields of a token answer that are kept.
#[derive(Debug, Clone, PartialEq, Eq)]
pub struct TokenFields {
    pub access_token: Option<String>,
    pub expires_in: Option<i64>,
    pub refresh_token: Option<String>,
}

/// Where the fields of a token answer stand: at its top for YouTube; for
/// TikTok under its `data` member when it has one.
pub open spec fn token_source(p: Platform, v: JsonView) -> Option<JsonView> {
    match p {
        Platform::YouTube => Some(v),
        Platform::TikTok => match member(Some(v), "data"@) {
            Some(d) => Some(d),
            None => Some(v),
        },
    }
}

/// The fields read from a token answer: `access_token` and
/// `refresh_token` as texts, `expires_in` as an `i64`.
pub open spec fn token_fields_spec(p: Platform, v: JsonView) -> (Option<Seq<char>>, Option<i64>, Option<Seq<char>>) {
    let s = token_source(p, v);
    (
        text_of(member(s, "access_token"@)),
        int_of(member(s, "expires_in"@)),
        text_of(member(s, "refresh_token"@)),
    )
}

/// The fields of a token answer of the platform.
pub fn token_fields_of(p: Platform, v: &Json) -> (r: TokenFields)
    ensures
        (text_view(r.access_token), r.expires_in, text_view(r.refresh_token)) == token_fields_spec(p, json_view(*v)),
{
    let source: &Json = match p {
        Platform::YouTube => v,
        Platform::TikTok => match member_of(Some(v), "data") {
            Some(d) => d,
            None => v,
        },
    };
    TokenFields {
        access_token: text_at(member_of(Some(source), "access_token")),
        expires_in: int_at(member_of(Some(source), "expires_in")),
        refresh_token: text_at(member_of(Some(source), "refresh_token")),
    }
}

/// The lifetime assumed when a token answer gives none, in seconds.
pub const DEFAULT_EXPIRES_IN: i64 = 3600;

/// When a token received at `now` counts as expired: its lifetime (3600
/// when not given, at least 60) less a 30 second margin.
pub open spec fn token_expiry(now: i64, expires_in: Option<i64>) -> int {
    let e = match expires_in {
        Some(v) => v as int,
        None => 3600,
    };
    let lifetime = if e >= 60 {
        e
    } else {
        60
    };
    now + lifetime - 30
}

pub open spec fn token_expiry_fits(now: i64, expires_in: Option<i64>) -> bool {
    i64::MIN <= token_expiry(now, expires_in) <= i64::MAX
}

pub fn expiry_for(now: i64, expires_in: Option<i64>) -> (r: i64)
    requires
        token_expiry_fits(now, expires_in),
    ensures
        r as int == token_expiry(now, expires_in),
{
    let e = match expires_in {
        Some(v) => v,
        None => DEFAULT_EXPIRES_IN,
    };
    let lifetime = if e >= 60 {
        e
    } else {
        60
    };
    let t: i128 = (now as i128) + (lifetime as i128) - 30;
    t as i64
}

pub open spec fn login_incomplete_msg() -> Seq<char> {
    "Die Anmeldung konnte nicht abgeschlossen werden."@
}

/// What is written for a token answer received at `now`: the access token
/// under the platform's access key, then the refresh token under its
/// refresh key when one is given and not empty, then the expiry (in
/// decimal) under its expiry key; nothing without an access token.
pub open spec fn token_plan(p: Platform, token: TokenFields, now: i64) -> Option<Seq<StoreOp>> {
    match token.access_token {
        None => None,
        Some(a) => Some(
            seq![StoreOp::Put(key_name(p, "access"@), a@)] + (match token.refresh_token {
                Some(rt) => if rt@.len() > 0 {
                    seq![StoreOp::Put(key_name(p, "refresh"@), rt@)]
                } else {
                    Seq::<StoreOp>::empty()
                },
                None => Seq::<StoreOp>::empty(),
            }) + seq![StoreOp::Put(key_name(p, "expiry"@), signed_decimal_spec(token_expiry(now, token.expires_in)))],
        ),
    }
}

/// The writes for a token answer received at `now`, `None` without an
/// access token.
pub fn token_updates(p: Platform, token: &TokenFields, now: i64) -> (r: Option<Vec<Update>>)
    requires
        token_expiry_fits(now, token.expires_in),
    ensures
        (match r {
            Some(v) => Some(updates_ops(v@)),
            None => None,
        }) == token_plan(p, *token, now),
{
    let access = match &token.access_token {
        Some(a) => a,
        None => return None,
    };
    let mut v: Vec<Update> = Vec::new();
    v.push(Update::Put(key_for(p, "access"), owned(access.as_str())));
    let ghost mid: Seq<StoreOp> = seq![];
    match &token.refresh_token {
        Some(refresh) => {
            if !refresh.as_str().is_empty() {
                v.push(Update::Put(key_for(p, "refresh"), owned(refresh.as_str())));
            }
        },
        None => {},
    }
    let expiry = expiry_for(now, token.expires_in);
    v.push(Update::Put(key_for(p, "expiry"), signed_decimal(expiry)));
    assert(updates_ops(v@) =~= token_plan(p, *token, now)->0);
    Some(v)
}

/// Storing a token answer as the calls in `log` show it: without an access
/// token the login is incomplete and nothing is written; otherwise the
/// writes of `token_plan`.
pub open spec fn store_run(log: Seq<StoreCall>, p: Platform, token: TokenFields, now: i64) -> (Result<(), Seq<char>>, nat) {
    match token_plan(p, token, now) {
        None => (Err(login_incomplete_msg()), 0),
        Some(plan) => run_updates(log, plan),
    }
}

/// Stores what a token answer received at `now` holds: the access token
/// (required), the refresh token when one is given and not empty, and the
/// expiry, in this order, stopping at the first failure. Without an access
/// token nothing is stored. Whether the store succeeds is not claimed.
pub fn store_token_value(vault: &mut Vault, p: Platform, token: &TokenFields, now: i64) -> (r: Result<(), String>)
    requires
        token_expiry_fits(now, token.expires_in),
    ensures
        extends(old(vault).calls@, final(vault).calls@),
        store_run(calls_since(old(vault).calls@, final(vault).calls@), p, *token, now)
            == (unit_view(r), calls_since(old(vault).calls@, final(vault).calls@).len()),
{
    let ghost l0 = vault.calls@;
    match token_updates(p, token, now) {
        Some(plan) => apply_updates(vault, &plan),
        None => {
            assert(calls_since(l0, vault.calls@) =~= Seq::<StoreCall>::empty());
            assert(l0.subrange(0, l0.len() as int) =~= l0);
            Err(owned("Die Anmeldung konnte nicht abgeschlossen werden."))
        },
    }
}

/// How an account is shown: the stored labels when its session is alive,
/// empty labels when not.
pub fn account_view(label: Account, alive: bool) -> (r: Account)
    ensures
        r.connected == alive,
        alive ==> r.display_name@ == label.display_name@ && r.handle@ == label.handle@,
        !alive ==> r.display_name@.len() == 0 && r.handle@.len() == 0,
{
    if alive {
        Account { connected: true, display_name: label.display_name, handle: label.handle }
    } else {
        Account { connected: false, display_name: String::new(), handle: String::new() }
    }
}

/// What a failed token refresh means: a refresh that could not be sent
/// leaves the session alone; any other failure ends it.
pub fn refresh_failure(p: Platform, fail: NetFail) -> (r: (bool, String))
    ensures
        r.0 == (fail != NetFail::Offline),
        r.1@ == (match p {
            Platform::YouTube => crate::net::youtube_fail_msg(
                if fail == NetFail::Offline {
                    NetFail::Offline
                } else {
                    NetFail::Denied
                },
            ),
            Platform::TikTok => crate::net::tiktok_fail_msg(
                if fail == NetFail::Offline {
                    NetFail::Offline
                } else {
                    NetFail::Denied
                },
            ),
        }),
{
    let clear = match fail {
        NetFail::Offline => false,
        _ => true,
    };
    let msg = match fail {
        NetFail::Offline => NetFail::Offline,
        _ => NetFail::Denied,
    };
    let text = match p {
        Platform::YouTube => msg.youtube(),
        Platform::TikTok => msg.tiktok(),
    };
    (clear, text)
}

/// The store account of the TikTok client secret.
pub const TIKTOK_SECRET_ACCOUNT: &'static str = "tiktok_client_secret";

pub open spec fn tiktok_secret_account() -> Seq<char> {
    "tiktok_client_secret"@
}

/// What is done with a validated TikTok client secret: an empty one is
/// removed, any other is stored, under the secret's account.
pub open spec fn secret_plan(v: Seq<char>) -> Seq<StoreOp> {
    if v.len() == 0 {
        seq![StoreOp::Remove(tiktok_secret_account())]
    } else {
        seq![StoreOp::Put(tiktok_secret_account(), v)]
    }
}

/// Stores a new TikTok client secret after validating it; an empty secret
/// removes the stored one. A secret that is refused touches nothing.
/// Whether the store succeeds is not claimed.
pub fn set_tiktok_secret(vault: &mut Vault, secret: String) -> (r: Result<(), String>)
    ensures
        extends(old(vault).calls@, final(vault).calls@),
        (match validate_secret_spec(secret@) {
            Err(e) => unit_view(r) == Err::<(), Seq<char>>(e) && final(vault).calls@ == old(vault).calls@,
            Ok(v) => run_updates(calls_since(old(vault).calls@, final(vault).calls@), secret_plan(v))
                == (unit_view(r), calls_since(old(vault).calls@, final(vault).calls@).len()),
        }),
{
    let ghost l0 = vault.calls@;
    let secret = match validate_secret(secret.as_str()) {
        Ok(s) => s,
        Err(e) => {
            assert(l0.subrange(0, l0.len() as int) =~= l0);
            return Err(e);
        },
    };
    if secret.as_str().is_empty() {
        delete_secret(vault, TIKTOK_SECRET_ACCOUNT)
    } else {
        set_secret(vault, TIKTOK_SECRET_ACCOUNT, secret.as_str())
    }
}


/// The token endpoint of a platform.
pub open spec fn token_endpoint_spec(p: Platform) -> Seq<char> {
    match p {
        Platform::YouTube => "https://oauth2.googleapis.com/token"@,
        Platform::TikTok => "https://open.tiktokapis.com/v2/oauth/token/"@,
    }
}

pub fn token_endpoint(p: Platform) -> (r: &'static str)
    ensures
        r@ == token_endpoint_spec(p),
{
    match p {
        Platform::YouTube => "https://oauth2.googleapis.com/token",
        Platform::TikTok => "https://open.tiktokapis.com/v2/oauth/token/",
    }
}

fn pair(k: &str, v: &str) -> (r: (String, String))
    ensures
        r.0@ == k@,
        r.1@ == v@,
{
    (owned(k), owned(v))
}

/// The form that exchanges a YouTube authorization code for tokens.
pub fn youtube_code_form(code: &str, client_id: &str, verifier: &str) -> (r: Vec<(String, String)>)
    ensures
        pairs_view(r@) == seq![
            ("code"@, code@),
            ("client_id"@, client_id@),
            ("redirect_uri"@, "http://127.0.0.1:38947/callback"@),
            ("grant_type"@, "authorization_code"@),
            ("code_verifier"@, verifier@),
        ],
{
    let mut r: Vec<(String, String)> = Vec::new();
    r.push(pair("code", code));
    r.push(pair("client_id", client_id));
    r.push(pair("redirect_uri", crate::model::redirect_uri()));
    r.push(pair("grant_type", "authorization_code"));
    r.push(pair("code_verifier", verifier));
    assert(pairs_view(r@) =~= seq![
        ("code"@, code@),
        ("client_id"@, client_id@),
        ("redirect_uri"@, "http://127.0.0.1:38947/callback"@),
        ("grant_type"@, "authorization_code"@),
        ("code_verifier"@, verifier@),
    ]);
    r
}

/// The form that exchanges a TikTok authorization code for tokens.
pub fn tiktok_code_form(client_key: &str, secret: &str, code: &str, verifier: &str) -> (r: Vec<
    (String, String),
>)
    ensures
        pairs_view(r@) == seq![
            ("client_key"@, client_key@),
            ("client_secret"@, secret@),
            ("code"@, code@),
            ("grant_type"@, "authorization_code"@),
            ("redirect_uri"@, "http://127.0.0.1:38947/callback"@),
            ("code_verifier"@, verifier@),
        ],
{
    let mut r: Vec<(String, String)> = Vec::new();
    r.push(pair("client_key", client_key));
    r.push(pair("client_secret", secret));
    r.push(pair("code", code));
    r.push(pair("grant_type", "authorization_code"));
    r.push(pair("redirect_uri", crate::model::redirect_uri()));
    r.push(pair("code_verifier", verifier));
    assert(pairs_view(r@) =~= seq![
        ("client_key"@, client_key@),
        ("client_secret"@, secret@),
        ("code"@, code@),
        ("grant_type"@, "authorization_code"@),
        ("redirect_uri"@, "http://127.0.0.1:38947/callback"@),
        ("code_verifier"@, verifier@),
    ]);
    r
}

/// The form that renews a YouTube access token.
pub fn youtube_refresh_form(client_id: &str, refresh_token: &str) -> (r: Vec<(String, String)>)
    ensures
        pairs_view(r@) == seq![
            ("client_id"@, client_id@),
            ("refresh_token"@, refresh_token@),
            ("grant_type"@, "refresh_token"@),
        ],
{
    let mut r: Vec<(String, String)> = Vec::new();
    r.push(pair("client_id", client_id));
    r.push(pair("refresh_token", refresh_token));
    r.push(pair("grant_type", "refresh_token"));
    assert(pairs_view(r@) =~= seq![
        ("client_id"@, client_id@),
        ("refresh_token"@, refresh_token@),
        ("grant_type"@, "refresh_token"@),
    ]);
    r
}

/// The form that renews a TikTok access token.
pub fn tiktok_refresh_form(client_key: &str, secret: &str, refresh_token: &str) -> (r: Vec<
    (String, String),
>)
    ensures
        pairs_view(r@) == seq![
            ("client_key"@, client_key@),
            ("client_secret"@, secret@),
            ("grant_type"@, "refresh_token"@),
            ("refresh_token"@, refresh_token@),
        ],
{
    let mut r: Vec<(String, String)> = Vec::new();
    r.push(pair("client_key", client_key));
    r.push(pair("client_secret", secret));
    r.push(pair("grant_type", "refresh_token"));
    r.push(pair("refresh_token", refresh_token));
    assert(pairs_view(r@) =~= seq![
        ("client_key"@, client_key@),
        ("client_secret"@, secret@),
        ("grant_type"@, "refresh_token"@),
        ("refresh_token"@, refresh_token@),
    ]);
    r
}

pub open spec fn missing_client_msg(p: Platform) -> Seq<char> {
    match p {
        Platform::YouTube => "YouTube-Client-ID fehlt. Trag sie in den Einstellungen ein."@,
        Platform::TikTok => "TikTok-Client-Key fehlt. Trag ihn in den Einstellungen ein."@,
    }
}

/// A login needs the platform's client id (YouTube) or client key (TikTok).
pub fn require_client(p: Platform, client: &str) -> (r: Result<(), String>)
    ensures
        r is Ok <==> client@.len() != 0,
        r matches Err(e) ==> e@ == missing_client_msg(p),
{
    if client.is_empty() {
        match p {
            Platform::YouTube => Err(owned("YouTube-Client-ID fehlt. Trag sie in den Einstellungen ein.")),
            Platform::TikTok => Err(owned("TikTok-Client-Key fehlt. Trag ihn in den Einstellungen ein.")),
        }
    } else {
        Ok(())
    }
}

pub open spec fn missing_secret_msg() -> Seq<char> {
    "TikTok-Client-Secret fehlt. Trag es in den Einstellungen ein."@
}

/// A secret that a step needs, from its lookup: the secret when found,
/// `missing` when there is none, and the lookup's own error otherwise.
pub fn secret_or_missing(lookup: Result<Option<String>, String>, missing: &str) -> (r: Result<String, String>)
    ensures
        (match lookup {
            Ok(Some(s)) => r matches Ok(v) && v@ == s@,
            Ok(None) => r matches Err(e) && e@ == missing@,
            Err(m) => r matches Err(e) && e@ == m@,
        }),
{
    match lookup {
        Ok(Some(s)) => Ok(s),
        Ok(None) => Err(owned(missing)),
        Err(e) => Err(e),
    }
}

/// A secret that a step needs, as its lookup reads: the secret when found,
/// `missing` when there is none, the lookup's error otherwise.
pub open spec fn required_secret(l: Result<Option<Seq<char>>, Seq<char>>, missing: Seq<char>) -> Result<Seq<char>, Seq<char>> {
    match l {
        Ok(Some(s)) => Ok(s),
        Ok(None) => Err(missing),
        Err(m) => Err(m),
    }
}

/// The stored TikTok client secret, which a TikTok login needs: one lookup
/// of the secret's account. What the store holds is not claimed.
pub fn tiktok_client_secret(vault: &mut Vault) -> (r: Result<String, String>)
    ensures
        extends(old(vault).calls@, final(vault).calls@),
        run_read(calls_since(old(vault).calls@, final(vault).calls@), tiktok_secret_account()).1
            == calls_since(old(vault).calls@, final(vault).calls@).len(),
        string_result_view(r) == required_secret(
            run_read(calls_since(old(vault).calls@, final(vault).calls@), tiktok_secret_account()).0,
            missing_secret_msg(),
        ),
{
    secret_or_missing(
        get_secret(vault, TIKTOK_SECRET_ACCOUNT),
        "TikTok-Client-Secret fehlt. Trag es in den Einstellungen ein.",
    )
}

pub open spec fn not_connected_msg(p: Platform) -> Seq<char> {
    match p {
        Platform::YouTube => "YouTube ist nicht verbunden."@,
        Platform::TikTok => "TikTok ist nicht verbunden."@,
    }
}

/// The stored refresh token of the platform, which a renewal needs: one
/// lookup of the platform's refresh key. What the store holds is not
/// claimed.
pub fn refresh_token_of(vault: &mut Vault, p: Platform) -> (r: Result<String, String>)
    ensures
        extends(old(vault).calls@, final(vault).calls@),
        run_read(calls_since(old(vault).calls@, final(vault).calls@), key_name(p, "refresh"@)).1
            == calls_since(old(vault).calls@, final(vault).calls@).len(),
        string_result_view(r) == required_secret(
            run_read(calls_since(old(vault).calls@, final(vault).calls@), key_name(p, "refresh"@)).0,
            not_connected_msg(p),
        ),
{
    let missing = match p {
        Platform::YouTube => "YouTube ist nicht verbunden.",
        Platform::TikTok => "TikTok ist nicht verbunden.",
    };
    secret_or_missing(get_secret(vault, key_for(p, "refresh").as_str()), missing)
}

/// A code exchange as the calls in `log` show it, with the clock at `t`
/// when the token is read back: a failed exchange ends the login; a token
/// answer is stored, then the access token is read back as
/// `current_access` reads it, and a token that is not there or not fresh
/// ends the login.
pub open spec fn exchange_run(log: Seq<StoreCall>, p: Platform, answer: Result<TokenFields, NetFail>, now: i64, t: i64) -> (Result<Seq<char>, Seq<char>>, nat) {
    match answer {
        Err(_) => (Err(login_incomplete_msg()), 0),
        Ok(tok) => {
            let s = store_run(log, p, tok, now);
            match s.0 {
                Err(e) => (Err(e), s.1),
                Ok(()) => {
                    let a = access_run(log.skip(s.1 as int), p, t);
                    (
                        match a.0 {
                            Ok(x) => Ok(x),
                            Err(()) => Err(login_incomplete_msg()),
                        },
                        s.1 + a.1,
                    )
                },
            }
        },
    }
}

/// Finishes a code exchange whose token answer arrived at `now` (or
/// failed): stores the tokens and gives the fresh access token. A failed
/// exchange, a missing access token or a token that is not fresh end the
/// login with the failure message. What the store holds and the time are
/// not claimed.
pub fn finish_code_exchange(vault: &mut Vault, p: Platform, answer: Result<TokenFields, NetFail>, now: i64) -> (r:
    Result<String, String>)
    requires
        answer matches Ok(t) ==> token_expiry_fits(now, t.expires_in),
    ensures
        extends(old(vault).calls@, final(vault).calls@),
        exists|t: i64|
            #[trigger] exchange_run(calls_since(old(vault).calls@, final(vault).calls@), p, answer, now, t) == (
            string_result_view(r), calls_since(old(vault).calls@, final(vault).calls@).len()),
{
    let ghost l0 = vault.calls@;
    let token = match answer {
        Ok(t) => t,
        Err(_) => {
            assert(calls_since(l0, vault.calls@) =~= Seq::<StoreCall>::empty());
            assert(l0.subrange(0, l0.len() as int) =~= l0);
            let r = Err(owned("Die Anmeldung konnte nicht abgeschlossen werden."));
            assert(exchange_run(calls_since(l0, vault.calls@), p, answer, now, 0) == (string_result_view(r), 0nat));
            return r;
        },
    };
    match store_token_value(vault, p, &token, now) {
        Ok(()) => {},
        Err(e) => {
            assert(exchange_run(calls_since(l0, vault.calls@), p, answer, now, 0) == (string_result_view(Err(e)), calls_since(l0, vault.calls@).len()));
            return Err(e);
        },
    }
    let ghost l1 = vault.calls@;
    let access = current_access(vault, p);
    let ghost t = choose|t: i64| #[trigger] access_run(calls_since(l1, vault.calls@), p, t) == (
        access_view(access), calls_since(l1, vault.calls@).len());
    proof {
        lemma_calls_concat(l0, l1, vault.calls@);
        let plan = token_plan(p, token, now)->0;
        lemma_updates_then(calls_since(l0, l1), calls_since(l1, vault.calls@), plan);
    }
    let r = match access {
        Ok(a) => Ok(a),
        Err(()) => Err(owned("Die Anmeldung konnte nicht abgeschlossen werden.")),
    };
    assert(exchange_run(calls_since(l0, vault.calls@), p, answer, now, t) == (string_result_view(r), calls_since(l0, vault.calls@).len()));
    r
}

/// The failure message of a platform.
pub open spec fn platform_fail_msg(p: Platform, f: NetFail) -> Seq<char> {
    match p {
        Platform::YouTube => crate::net::youtube_fail_msg(f),
        Platform::TikTok => crate::net::tiktok_fail_msg(f),
    }
}

/// A token renewal as the calls in `log` show it: an answer that could not
/// be fetched touches nothing and reports the connection; any other failure
/// removes the session's entries (`clear_plan`) and reports the session as
/// expired; a token answer is stored and the access token read back.
pub open spec fn refresh_run(log: Seq<StoreCall>, p: Platform, answer: Result<TokenFields, NetFail>, now: i64) -> (Result<Seq<char>, Seq<char>>, nat) {
    match answer {
        Ok(tok) => {
            let s = store_run(log, p, tok, now);
            match s.0 {
                Err(e) => (Err(e), s.1),
                Ok(()) => {
                    let a = run_read(log.skip(s.1 as int), key_name(p, "access"@));
                    (
                        match a.0 {
                            Ok(Some(x)) => Ok(x),
                            Ok(None) => Err(login_incomplete_msg()),
                            Err(m) => Err(m),
                        },
                        s.1 + a.1,
                    )
                },
            }
        },
        Err(f) => if f == NetFail::Offline {
            (Err(platform_fail_msg(p, NetFail::Offline)), 0)
        } else {
            let c = run_updates(log, clear_plan(p));
            (
                match c.0 {
                    Err(e) => Err(e),
                    Ok(()) => Err(platform_fail_msg(p, NetFail::Denied)),
                },
                c.1,
            )
        },
    }
}

/// Finishes a token renewal whose answer arrived at `now` (or failed). An
/// answer that could not be fetched leaves the session and reports the
/// connection; any other failure ends the session and reports it as
/// expired; a token answer is stored and its access token returned. What
/// the store holds is not claimed.
pub fn finish_refresh(vault: &mut Vault, p: Platform, answer: Result<TokenFields, NetFail>, now: i64) -> (r: Result<
    String,
    String,
>)
    requires
        answer matches Ok(t) ==> token_expiry_fits(now, t.expires_in),
    ensures
        extends(old(vault).calls@, final(vault).calls@),
        refresh_run(calls_since(old(vault).calls@, final(vault).calls@), p, answer, now)
            == (string_result_view(r), calls_since(old(vault).calls@, final(vault).calls@).len()),
{
    let ghost l0 = vault.calls@;
    proof {
        assert(calls_since(l0, l0) =~= Seq::<StoreCall>::empty());
        assert(l0.subrange(0, l0.len() as int) =~= l0);
    }
    match answer {
        Ok(token) => {
            match store_token_value(vault, p, &token, now) {
                Ok(()) => {},
                Err(e) => return Err(e),
            }
            let ghost l1 = vault.calls@;
            let found = get_secret(vault, key_for(p, "access").as_str());
            proof {
                lemma_calls_concat(l0, l1, vault.calls@);
                let plan = token_plan(p, token, now)->0;
                lemma_updates_then(calls_since(l0, l1), calls_since(l1, vault.calls@), plan);
            }
            match found {
                Ok(Some(a)) => Ok(a),
                Ok(None) => Err(owned("Die Anmeldung konnte nicht abgeschlossen werden.")),
                Err(e) => Err(e),
            }
        },
        Err(fail) => {
            let (clear, message) = refresh_failure(p, fail);
            if clear {
                match clear_session(vault, p) {
                    Ok(()) => {},
                    Err(e) => return Err(e),
                }
            }
            Err(message)
        },
    }
}

/// The labels used when the profile cannot be fetched after a login.
pub fn profile_fallback(p: Platform) -> (r: (String, String))
    ensures
        r.0@ == (match p {
            Platform::YouTube => "YouTube"@,
            Platform::TikTok => "TikTok"@,
        }),
        r.1@.len() == 0,
{
    match p {
        Platform::YouTube => (owned("YouTube"), String::new()),
        Platform::TikTok => (owned("TikTok"), String::new()),
    }
}


/// The platform that a name from the front end denotes.
pub open spec fn platform_named(name: Seq<char>) -> Option<Platform> {
    if name == "youtube"@ {
        Some(Platform::YouTube)
    } else if name == "tiktok"@ {
        Some(Platform::TikTok)
    } else {
        None
    }
}

/// The platform named `name`, or the message for an unknown one.
pub fn parse_platform(name: &str) -> (r: Result<Platform, String>)
    ensures
        (match r {
            Ok(p) => Some(p),
            Err(_) => None,
        }) == platform_named(name@),
        r matches Err(e) ==> e@ == crate::model::unknown_platform_msg(),
{
    if str_eq(name, "youtube") {
        Ok(Platform::YouTube)
    } else if str_eq(name, "tiktok") {
        Ok(Platform::TikTok)
    } else {
        Err(owned("Unbekannte Plattform."))
    }
}


/// What is written for a token is what is read back: an access token
/// stored with the expiry of a token answer received at `now` counts as
/// fresh at time `t` exactly while that expiry lies more than 20 seconds
/// after `t`, and the session counts as alive while it lies more than 15
/// seconds after `t`.
pub proof fn lemma_stored_expiry_read_back(now: i64, expires_in: Option<i64>, access: Seq<char>, t: i64)
    requires
        token_expiry_fits(now, expires_in),
    ensures
        fresh_access(Some(access), Some(signed_decimal_spec(token_expiry(now, expires_in))), t)
            == (if token_expiry(now, expires_in) > t + 20 {
            Some(access)
        } else {
            None
        }),
        alive_spec(false, Some(signed_decimal_spec(token_expiry(now, expires_in))), t) == (
        token_expiry(now, expires_in) > t + 15),
{
    let x = token_expiry(now, expires_in) as i64;
    crate::text::lemma_parse_i64_decimal(x);
}

/// The message of a failed call to the platform.
pub fn fail_message(p: Platform, f: NetFail) -> (r: String)
    ensures
        r@ == platform_fail_msg(p, f),
{
    match p {
        Platform::YouTube => f.youtube(),
        Platform::TikTok => f.tiktok(),
    }
}

/// How to get the access token for a call: the stored one while it is
/// fresh, otherwise a renewal.
pub enum AccessStep {
    Use(String),
    Renew,
}

pub fn access_step(current: Result<String, ()>) -> (r: AccessStep)
    ensures
        (match current {
            Ok(a) => r matches AccessStep::Use(b) && b@ == a@,
            Err(()) => r is Renew,
        }),
{
    match current {
        Ok(a) => AccessStep::Use(a),
        Err(()) => AccessStep::Renew,
    }
}

/// What follows the first answer to a call with an access token: an
/// answer is the result; a refusal of the token asks for one renewal and a
/// second call; any other failure ends the call with its message.
pub enum CallStep {
    Done(Result<Json, String>),
    Renew,
}

pub fn first_call_step(p: Platform, answer: Result<Json, NetFail>) -> (r: CallStep)
    ensures
        (match answer {
            Ok(j) => r matches CallStep::Done(Ok(k)) && json_view(k) == json_view(j),
            Err(NetFail::Denied) => r is Renew,
            Err(f) => r matches CallStep::Done(Err(m)) && m@ == platform_fail_msg(p, f),
        }),
{
    match answer {
        Ok(j) => CallStep::Done(Ok(j)),
        Err(NetFail::Denied) => CallStep::Renew,
        Err(f) => CallStep::Done(Err(fail_message(p, f))),
    }
}

/// The result of the second call, after a renewal: its answer, or the
/// message of its failure.
pub fn second_call_result(p: Platform, answer: Result<Json, NetFail>) -> (r: Result<Json, String>)
    ensures
        (match answer {
            Ok(j) => r matches Ok(k) && json_view(k) == json_view(j),
            Err(f) => r matches Err(m) && m@ == platform_fail_msg(p, f),
        }),
{
    match answer {
        Ok(j) => Ok(j),
        Err(f) => Err(fail_message(p, f)),
    }
}

/// Whether a feed is fetched: a session that is not alive gives an empty
/// feed without any request.
pub enum FeedStart {
    Empty,
    Fetch,
}

pub fn feed_start(alive: bool) -> (r: FeedStart)
    ensures
        r is Empty <==> !alive,
{
    if alive {
        FeedStart::Fetch
    } else {
        FeedStart::Empty
    }
}

/// A code exchange that ends the login well stored the answer's tokens
/// first: its first call writes the access token under the platform's
/// access key, a later one of the next two writes the expiry under the
/// expiry key, both answered with success; and the token returned is the
/// one a later lookup of the access key found.
pub proof fn lemma_exchange_stores_tokens(log: Seq<StoreCall>, p: Platform, token: TokenFields, now: i64, t: i64)
    requires
        exchange_run(log, p, Ok(token), now, t).0 is Ok,
    ensures
        token.access_token is Some,
        log.len() >= 1,
        is_call(log[0], StoreOp::Put(key_name(p, "access"@), token.access_token->0@)),
        log[0].answer is Ok,
        exists|j: int|
            1 <= j <= 2 && j < log.len() && is_call(
                #[trigger] log[j],
                StoreOp::Put(key_name(p, "expiry"@), signed_decimal_spec(token_expiry(now, token.expires_in))),
            ) && log[j].answer is Ok,
        exists|m: int|
            2 <= m < log.len() && is_call(#[trigger] log[m], StoreOp::Get(key_name(p, "access"@)))
                && log[m].answer == Ok::<Seq<char>, StoreFailure>(exchange_run(log, p, Ok(token), now, t).0->Ok_0),
{
    let plan = token_plan(p, token, now)->0;
    lemma_run_updates_ok(log, plan);
    let n = plan.len() as int;
    assert(plan[0] == StoreOp::Put(key_name(p, "access"@), token.access_token->0@));
    assert(plan[n - 1] == StoreOp::Put(key_name(p, "expiry"@), signed_decimal_spec(token_expiry(now, token.expires_in))));
    assert(is_call(log[n - 1], plan[n - 1]));
    let rest = log.skip(n);
    let e = run_read(rest, key_name(p, "expiry"@));
    assert(e.1 == 1);
    let a = run_read(rest.skip(1), key_name(p, "access"@));
    assert(a.1 == 1);
    assert(rest.skip(1)[0] == log[n + 1]);
    assert(log[n + 1].answer is Ok);
}

} // verus!
