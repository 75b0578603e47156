//! The OAuth login flow: PKCE values, the answer to each request that
//! reaches the local redirect listener, and the listener's stop rules.

use base64::Engine;
use sha2::Digest;
use vstd::prelude::*;
use vstd::utf8::encode_utf8;

use crate::model::{all_chars_in, all_in_class, CharClass};
use crate::text::{
    byte_len, byte_length, decimal, decimal_spec, is_whitespace, owned, str_eq,
    unicode_white_space,
};
use crate::urls::{form_decode, form_urlencoded_parse, pairs_view};

verus! {

/// The values of one PKCE login: the secret verifier, its S256 challenge
/// and the anti-forgery state.
#[derive(Debug, Clone, PartialEq, Eq)]
pub struct Pkce {
    pub verifier: String,
    pub challenge: String,
    pub state: String,
}

/// What `Sha256::digest` computes on the given bytes.
pub uninterp spec fn sha256_digest(data: Seq<u8>) -> Seq<u8>;

/// The character of the URL-safe Base64 alphabet for a six-bit value:
/// `A-Z`, `a-z`, `0-9`, then `-` and `_`.
pub open spec fn base64_url_char(v: int) -> char {
    if v < 26 {
        (65 + v) as char
    } else if v < 52 {
        (97 + (v - 26)) as char
    } else if v < 62 {
        (48 + (v - 52)) as char
    } else if v == 62 {
        '-'
    } else {
        '_'
    }
}

/// URL-safe Base64 without padding: every three bytes give four
/// characters of six bits each, most significant first; a last group of
/// one byte gives two characters and of two bytes three, its missing low
/// bits being zero.
pub open spec fn base64_url_no_pad(data: Seq<u8>) -> Seq<char>
    decreases data.len(),
{
    if data.len() == 0 {
        Seq::empty()
    } else if data.len() == 1 {
        let a = data[0] as int;
        seq![base64_url_char(a / 4), base64_url_char((a % 4) * 16)]
    } else if data.len() == 2 {
        let a = data[0] as int;
        let b = data[1] as int;
        seq![base64_url_char(a / 4), base64_url_char((a % 4) * 16 + b / 16), base64_url_char((b % 16) * 4)]
    } else {
        let a = data[0] as int;
        let b = data[1] as int;
        let c = data[2] as int;
        seq![
            base64_url_char(a / 4),
            base64_url_char((a % 4) * 16 + b / 16),
            base64_url_char((b % 16) * 4 + c / 64),
            base64_url_char(c % 64),
        ] + base64_url_no_pad(data.skip(3))
    }
}

/// Calls `sha2::Sha256` on the bytes. Claims that the digest is the named
/// function of the input and has 32 bytes, the output size of SHA-256.
#[verifier::external_body]
fn sha256(data: &[u8]) -> (r: Vec<u8>)
    ensures
        r@ == sha256_digest(data@),
        r@.len() == 32,
{
    let mut hasher = sha2::Sha256::new();
    hasher.update(data);
    hasher.finalize().to_vec()
}

/// A character of the URL-safe Base64 alphabet: `A-Z a-z 0-9 - _`.
pub open spec fn url_safe_char(c: char) -> bool {
    ('A' <= c <= 'Z') || ('a' <= c <= 'z') || ('0' <= c <= '9') || c == '-' || c == '_'
}

/// Calls `base64::engine::general_purpose::URL_SAFE_NO_PAD.encode`, which
/// the `base64` crate documents as the URL-safe alphabet without padding:
/// the text is `base64_url_no_pad` of the bytes.
#[verifier::external_body]
fn base64_url(data: &[u8]) -> (r: String)
    ensures
        r@ == base64_url_no_pad(data@),
{
    base64::engine::general_purpose::URL_SAFE_NO_PAD.encode(data)
}

/// Calls `getrandom::getrandom` on the buffer and reports whether it
/// succeeded. The bytes depend on the operating system's random source,
/// so only that the length is kept is claimed.
#[verifier::external_body]
fn fill_random(buf: &mut Vec<u8>) -> (ok: bool)
    ensures
        final(buf)@.len() == old(buf)@.len(),
{
    getrandom::getrandom(buf.as_mut_slice()).is_ok()
}

/// URL-safe Base64 of `n` bytes has `(4n + 2) / 3` characters, all from
/// the URL-safe alphabet.
pub proof fn lemma_base64_url_shape(data: Seq<u8>)
    ensures
        base64_url_no_pad(data).len() == (4 * data.len() + 2) / 3,
        forall|i: int|
            0 <= i < base64_url_no_pad(data).len() ==> url_safe_char(#[trigger] base64_url_no_pad(data)[i]),
    decreases data.len(),
{
    assert forall|v: int| 0 <= v < 64 implies url_safe_char(#[trigger] base64_url_char(v)) by {
        if v < 26 {
            assert(((65 + v) as char) as int == 65 + v);
        } else if v < 52 {
            assert(((97 + (v - 26)) as char) as int == 97 + (v - 26));
        } else if v < 62 {
            assert(((48 + (v - 52)) as char) as int == 48 + (v - 52));
        }
    }
    let e = base64_url_no_pad(data);
    if data.len() >= 3 {
        lemma_base64_url_shape(data.skip(3));
        let a = data[0] as int;
        let b = data[1] as int;
        let c = data[2] as int;
        assert(0 <= a / 4 < 64 && 0 <= (a % 4) * 16 + b / 16 < 64 && 0 <= (b % 16) * 4 + c / 64 < 64 && 0
            <= c % 64 < 64);
        let rest = base64_url_no_pad(data.skip(3));
        assert forall|i: int| 0 <= i < e.len() implies url_safe_char(#[trigger] e[i]) by {
            if i >= 4 {
                assert(e[i] == rest[i - 4]);
            }
        }
    } else if data.len() == 2 {
        let a = data[0] as int;
        let b = data[1] as int;
        assert(0 <= a / 4 < 64 && 0 <= (a % 4) * 16 + b / 16 < 64 && 0 <= (b % 16) * 4 < 64);
    } else if data.len() == 1 {
        let a = data[0] as int;
        assert(0 <= a / 4 < 64 && 0 <= (a % 4) * 16 < 64);
    }
}

pub open spec fn no_randomness_msg() -> Seq<char> {
    "Zufallszahlen nicht verfügbar."@
}

/// `t` is the URL-safe Base64 text of some `n` bytes: it has
/// `(4n + 2) / 3` characters, all from the URL-safe alphabet.
pub open spec fn is_token_of(t: Seq<char>, n: nat) -> bool {
    &&& exists|raw: Seq<u8>| raw.len() == n && t == #[trigger] base64_url_no_pad(raw)
    &&& t.len() == (4 * n + 2) / 3
    &&& forall|i: int| 0 <= i < t.len() ==> url_safe_char(#[trigger] t[i])
}

/// A fresh random token: `bytes` random bytes in URL-safe Base64 without
/// padding.
pub fn random_token(bytes: usize) -> (r: Result<String, String>)
    ensures
        r matches Ok(t) ==> is_token_of(t@, bytes as nat),
        r matches Err(e) ==> e@ == no_randomness_msg(),
{
    let mut buf: Vec<u8> = Vec::new();
    let mut i: usize = 0;
    while i < bytes
        invariant
            i <= bytes,
            buf@.len() == i,
        decreases bytes - i,
    {
        buf.push(0u8);
        i = i + 1;
    }
    if !fill_random(&mut buf) {
        return Err(owned("Zufallszahlen nicht verfügbar."));
    }
    let t = base64_url(buf.as_slice());
    proof {
        lemma_base64_url_shape(buf@);
    }
    assert(t@ == base64_url_no_pad(buf@));
    Ok(t)
}

/// The S256 challenge of a verifier: the URL-safe Base64 text of the
/// SHA-256 digest of its UTF-8 bytes.
pub open spec fn s256_challenge(verifier: Seq<char>) -> Seq<char> {
    base64_url_no_pad(sha256_digest(encode_utf8(verifier)))
}

/// New PKCE values, all URL-safe Base64: a verifier of 32 random bytes (43
/// characters), its S256 challenge (43 characters), and
/// a state of 16 random bytes.
pub fn create_pkce() -> (r: Result<Pkce, String>)
    ensures
        r matches Ok(p) ==> {
            &&& is_token_of(p.verifier@, 32)
            &&& p.verifier@.len() == 43
            &&& p.challenge@ == s256_challenge(p.verifier@)
            &&& p.challenge@.len() == 43
            &&& forall|i: int| 0 <= i < p.challenge@.len() ==> url_safe_char(#[trigger] p.challenge@[i])
            &&& is_token_of(p.state@, 16)
            &&& p.state@.len() == 22
        },
        r matches Err(e) ==> e@ == no_randomness_msg(),
{
    let verifier = match random_token(32) {
        Ok(v) => v,
        Err(e) => return Err(e),
    };
    let digest = sha256(verifier.as_str().as_bytes());
    let challenge = base64_url(digest.as_slice());
    proof {
        lemma_base64_url_shape(digest@);
    }
    let state = match random_token(16) {
        Ok(v) => v,
        Err(e) => return Err(e),
    };
    Ok(Pkce { verifier, challenge, state })
}

/// An authorization code that may be exchanged: 8 to 512 bytes from
/// `A-Z a-z 0-9 - _ . ~ /`.
pub open spec fn valid_code_spec(code: Seq<char>) -> bool {
    8 <= byte_len(code) <= 512 && all_in_class(CharClass::AuthCode, code)
}

pub fn valid_code(code: &str) -> (r: bool)
    ensures
        r == valid_code_spec(code@),
{
    let n = byte_length(code);
    8 <= n && n <= 512 && all_chars_in(code, CharClass::AuthCode)
}

/// The first index at or after `i` that holds `c`, or the length.
pub open spec fn find_char(s: Seq<char>, c: char, i: int) -> int
    decreases s.len() - i,
{
    if i >= s.len() {
        s.len() as int
    } else if s[i] == c {
        i
    } else {
        find_char(s, c, i + 1)
    }
}

/// The first line of a text, as `str::lines` yields it: up to the first
/// `\n`, without a `\r` just before it; the whole text when it has no `\n`.
pub open spec fn first_line(s: Seq<char>) -> Seq<char> {
    let k = find_char(s, '\n', 0);
    if k >= s.len() {
        s
    } else {
        let l = s.take(k);
        if l.len() > 0 && l.last() == '\r' {
            l.drop_last()
        } else {
            l
        }
    }
}

/// The first index at or after `i` that is not whitespace, or the length.
pub open spec fn word_start(s: Seq<char>, i: int) -> int
    decreases s.len() - i,
{
    if i >= s.len() {
        s.len() as int
    } else if !unicode_white_space(s[i]) {
        i
    } else {
        word_start(s, i + 1)
    }
}

/// The first index at or after `i` that is whitespace, or the length.
pub open spec fn word_end(s: Seq<char>, i: int) -> int
    decreases s.len() - i,
{
    if i >= s.len() {
        s.len() as int
    } else if unicode_white_space(s[i]) {
        i
    } else {
        word_end(s, i + 1)
    }
}

/// The first whitespace-separated word of `s`, empty when there is none.
pub open spec fn first_word(s: Seq<char>) -> Seq<char> {
    let a = word_start(s, 0);
    s.subrange(a, word_end(s, a))
}

/// The second whitespace-separated word of `s`, empty when there is none.
pub open spec fn second_word(s: Seq<char>) -> Seq<char> {
    let a = word_start(s, 0);
    let b = word_start(s, word_end(s, a));
    s.subrange(b, word_end(s, b))
}

/// The part of a request target before the first `?`, and the part after
/// it (empty when there is no `?`).
pub open spec fn split_target(t: Seq<char>) -> (Seq<char>, Seq<char>) {
    let k = find_char(t, '?', 0);
    if k >= t.len() {
        (t, Seq::empty())
    } else {
        (t.take(k), t.skip(k + 1))
    }
}

/// The value of the last pair named `key`, or empty.
pub open spec fn last_value(pairs: Seq<(Seq<char>, Seq<char>)>, key: Seq<char>) -> Seq<char>
    decreases pairs.len(),
{
    if pairs.len() == 0 {
        Seq::empty()
    } else if pairs.last().0 == key {
        pairs.last().1
    } else {
        last_value(pairs.drop_last(), key)
    }
}

pub open spec fn has_key(pairs: Seq<(Seq<char>, Seq<char>)>, key: Seq<char>) -> bool {
    exists|i: int| 0 <= i < pairs.len() && #[trigger] pairs[i].0 == key
}

/// The page sent back to the browser.
#[derive(Debug, Clone, Copy, PartialEq, Eq, Structural)]
pub enum Page {
    /// "connected", status 200.
    Connected,
    /// "could not be completed", status 200.
    Failed,
    /// "no", status 404.
    NotFound,
}

/// Whether the listener goes on waiting, or is done with the login.
#[derive(Debug, PartialEq, Eq)]
pub enum RequestOutcome {
    Continue,
    Done(Result<String, String>),
}

/// The answer to one request: the page to send, then what the listener does.
#[derive(Debug, PartialEq, Eq)]
pub struct Reply {
    pub page: Page,
    pub outcome: RequestOutcome,
}

pub open spec fn login_failed_msg() -> Seq<char> {
    "Die Anmeldung konnte nicht abgeschlossen werden."@
}

/// `None` for "go on waiting", else the login's result.
pub type OutcomeView = Option<Result<Seq<char>, Seq<char>>>;

pub open spec fn outcome_view(o: RequestOutcome) -> OutcomeView {
    match o {
        RequestOutcome::Continue => None,
        RequestOutcome::Done(Ok(c)) => Some(Ok(c@)),
        RequestOutcome::Done(Err(e)) => Some(Err(e@)),
    }
}

/// The answer to a request whose head is `head` (`None` when it could not
/// be read): a non-GET request gets the failure page and the listener
/// waits on; a path other than `/callback` gets 404 and it waits on; the
/// callback ends the login, with the code when no `error` was sent, the
/// `state` matches and the code is valid, else with the failure message.
pub open spec fn reply_spec(head: Option<Seq<char>>, expected_state: Seq<char>) -> (
    Page,
    OutcomeView,
) {
    match head {
        None => (Page::Failed, Some(Err(login_failed_msg()))),
        Some(text) => {
            let line = first_line(text);
            let method = first_word(line);
            let target = second_word(line);
            let (path, query) = split_target(target);
            if method != "GET"@ {
                (Page::Failed, None)
            } else if path == "/favicon.ico"@ {
                (Page::NotFound, None)
            } else if path != "/callback"@ {
                (Page::NotFound, None)
            } else {
                let pairs = form_urlencoded_parse(query);
                let code = last_value(pairs, "code"@);
                let state = last_value(pairs, "state"@);
                if has_key(pairs, "error"@) || state != expected_state || !valid_code_spec(code) {
                    (Page::Failed, Some(Err(login_failed_msg())))
                } else {
                    (Page::Connected, Some(Ok(code)))
                }
            }
        },
    }
}

fn find_char_from(s: &str, c: char, i: usize) -> (r: usize)
    requires
        i <= s@.len(),
    ensures
        r == find_char(s@, c, i as int),
        i <= r <= s@.len(),
{
    let n = s.unicode_len();
    let mut j = i;
    while j < n
        invariant
            n == s@.len(),
            i <= j <= n,
            find_char(s@, c, i as int) == find_char(s@, c, j as int),
        ensures
            i <= j <= n,
            find_char(s@, c, i as int) == find_char(s@, c, j as int),
            j == n || s@[j as int] == c,
        decreases n - j,
    {
        if s.get_char(j) == c {
            break;
        }
        j = j + 1;
    }
    j
}

fn skip_spaces(s: &str, i: usize) -> (r: usize)
    requires
        i <= s@.len(),
    ensures
        r == word_start(s@, i as int),
        i <= r <= s@.len(),
{
    let n = s.unicode_len();
    let mut j = i;
    while j < n
        invariant
            n == s@.len(),
            i <= j <= n,
            word_start(s@, i as int) == word_start(s@, j as int),
        ensures
            i <= j <= n,
            word_start(s@, i as int) == word_start(s@, j as int),
            j == n || !unicode_white_space(s@[j as int]),
        decreases n - j,
    {
        if !is_whitespace(s.get_char(j)) {
            break;
        }
        j = j + 1;
    }
    j
}

fn skip_word(s: &str, i: usize) -> (r: usize)
    requires
        i <= s@.len(),
    ensures
        r == word_end(s@, i as int),
        i <= r <= s@.len(),
{
    let n = s.unicode_len();
    let mut j = i;
    while j < n
        invariant
            n == s@.len(),
            i <= j <= n,
            word_end(s@, i as int) == word_end(s@, j as int),
        ensures
            i <= j <= n,
            word_end(s@, i as int) == word_end(s@, j as int),
            j == n || unicode_white_space(s@[j as int]),
        decreases n - j,
    {
        if is_whitespace(s.get_char(j)) {
            break;
        }
        j = j + 1;
    }
    j
}

/// The first line of `text`, as `str::lines` yields it.
pub fn first_line_of(text: &str) -> (r: &str)
    ensures
        r@ == first_line(text@),
{
    let n = text.unicode_len();
    let k = find_char_from(text, '\n', 0);
    if k >= n {
        return text;
    }
    if k > 0 && text.get_char(k - 1) == '\r' {
        assert(text@.subrange(0, k - 1) =~= text@.take(k as int).drop_last());
        text.substring_char(0, k - 1)
    } else {
        text.substring_char(0, k)
    }
}

/// The method and the target of a request line: its first two words.
pub fn request_method_and_target(line: &str) -> (r: (&str, &str))
    ensures
        r.0@ == first_word(line@),
        r.1@ == second_word(line@),
{
    let a = skip_spaces(line, 0);
    let a_end = skip_word(line, a);
    let b = skip_spaces(line, a_end);
    let b_end = skip_word(line, b);
    (line.substring_char(a, a_end), line.substring_char(b, b_end))
}

/// A request target split at its first `?`.
pub fn split_request_target(target: &str) -> (r: (&str, &str))
    ensures
        (r.0@, r.1@) == split_target(target@),
{
    let n = target.unicode_len();
    let k = find_char_from(target, '?', 0);
    if k >= n {
        proof {
            reveal_strlit("");
        }
        (target, "")
    } else {
        (target.substring_char(0, k), target.substring_char(k + 1, n))
    }
}

/// The code and state of a callback query, and whether it reports an error.
fn read_callback_query(pairs: &Vec<(String, String)>) -> (r: (String, String, bool))
    ensures
        r.0@ == last_value(pairs_view(pairs@), "code"@),
        r.1@ == last_value(pairs_view(pairs@), "state"@),
        r.2 == has_key(pairs_view(pairs@), "error"@),
{
    let ghost pv = pairs_view(pairs@);
    proof {
        reveal_strlit("code");
        reveal_strlit("state");
        reveal_strlit("error");
    }
    let mut code = String::new();
    let mut state = String::new();
    let mut failed = false;
    let mut i: usize = 0;
    assert(pv.take(0) =~= Seq::<(Seq<char>, Seq<char>)>::empty());
    while i < pairs.len()
        invariant
            pv == pairs_view(pairs@),
            pv.len() == pairs@.len(),
            i <= pairs@.len(),
            code@ == last_value(pv.take(i as int), "code"@),
            state@ == last_value(pv.take(i as int), "state"@),
            failed == has_key(pv.take(i as int), "error"@),
        decreases pairs@.len() - i,
    {
        proof {
            reveal_strlit("code");
            reveal_strlit("state");
            reveal_strlit("error");
            assert("code"@.len() == 4);
            assert("state"@.len() == 5);
            assert("error"@.len() == 5);
            assert("state"@[0] != "error"@[0]);
        }
        let key = pairs[i].0.as_str();
        let value = &pairs[i].1;
        let ghost prev = pv.take(i as int);
        let ghost next = pv.take(i + 1);
        assert(next.drop_last() =~= prev);
        assert(next.last() == pv[i as int]);
        assert(pv[i as int] == (pairs@[i as int].0@, pairs@[i as int].1@));
        assert(last_value(next, "code"@) == if key@ == "code"@ {
            value@
        } else {
            last_value(prev, "code"@)
        });
        assert(last_value(next, "state"@) == if key@ == "state"@ {
            value@
        } else {
            last_value(prev, "state"@)
        });
        assert(has_key(next, "error"@) == (has_key(prev, "error"@) || key@ == "error"@)) by {
            if has_key(next, "error"@) && !has_key(prev, "error"@) {
                let j = choose|j: int| 0 <= j < next.len() && #[trigger] next[j].0 == "error"@;
                if j < i {
                    assert(prev[j].0 == "error"@);
                }
            }
            if has_key(prev, "error"@) {
                let j = choose|j: int| 0 <= j < prev.len() && #[trigger] prev[j].0 == "error"@;
                assert(next[j].0 == "error"@);
            }
            if key@ == "error"@ {
                assert(next[i as int].0 == "error"@);
            }
        }
        if str_eq(key, "code") {
            code = value.clone();
        } else if str_eq(key, "state") {
            state = value.clone();
        } else if str_eq(key, "error") {
            failed = true;
        }
        i = i + 1;
    }
    assert(pv.take(pairs@.len() as int) =~= pv);
    (code, state, failed)
}

fn fail_reply() -> (r: Reply)
    ensures
        r.page == Page::Failed,
        outcome_view(r.outcome) == Some(Err::<Seq<char>, Seq<char>>(login_failed_msg())),
{
    Reply {
        page: Page::Failed,
        outcome: RequestOutcome::Done(Err(owned("Die Anmeldung konnte nicht abgeschlossen werden."))),
    }
}

/// The answer to a request that reached the redirect listener, given the
/// head of the request (`None` when it could not be read) and the state
/// that this login expects.
pub fn reply_to_request(head: Option<&str>, expected_state: &str) -> (r: Reply)
    ensures
        (r.page, outcome_view(r.outcome)) == reply_spec(
            match head {
                Some(h) => Some(h@),
                None => None,
            },
            expected_state@,
        ),
{
    let text = match head {
        Some(t) => t,
        None => return fail_reply(),
    };
    let line = first_line_of(text);
    let (method, target) = request_method_and_target(line);
    if !str_eq(method, "GET") {
        return Reply { page: Page::Failed, outcome: RequestOutcome::Continue };
    }
    let (path, query) = split_request_target(target);
    if str_eq(path, "/favicon.ico") {
        return Reply { page: Page::NotFound, outcome: RequestOutcome::Continue };
    }
    if !str_eq(path, "/callback") {
        return Reply { page: Page::NotFound, outcome: RequestOutcome::Continue };
    }
    let pairs = form_decode(query);
    let (code, state, failed) = read_callback_query(&pairs);
    if failed || !str_eq(state.as_str(), expected_state) || !valid_code(code.as_str()) {
        return fail_reply();
    }
    Reply { page: Page::Connected, outcome: RequestOutcome::Done(Ok(code)) }
}

/// A callback that ends the login successfully carries the expected state
/// and a valid code, and reports no error.
pub proof fn lemma_accepted_callback(head: Seq<char>, expected_state: Seq<char>)
    ensures
        reply_spec(Some(head), expected_state).1 matches Some(Ok(code)) ==> {
            let (path, query) = split_target(second_word(first_line(head)));
            &&& first_word(first_line(head)) == "GET"@
            &&& path == "/callback"@
            &&& valid_code_spec(code)
            &&& last_value(form_urlencoded_parse(query), "state"@) == expected_state
            &&& !has_key(form_urlencoded_parse(query), "error"@)
            &&& reply_spec(Some(head), expected_state).0 == Page::Connected
        },
{
}


/// The query pairs of a request head: those of its target's query.
pub open spec fn head_query_pairs(head: Seq<char>) -> Seq<(Seq<char>, Seq<char>)> {
    form_urlencoded_parse(split_target(second_word(first_line(head))).1)
}

/// A head that is a `GET` of `/callback`.
pub open spec fn is_callback_get(head: Seq<char>) -> bool {
    &&& first_word(first_line(head)) == "GET"@
    &&& split_target(second_word(first_line(head))).0 == "/callback"@
}

proof fn lemma_insert_other_key(p: Seq<(Seq<char>, Seq<char>)>, i: int, k: Seq<char>, v: Seq<char>, key: Seq<char>)
    requires
        0 <= i <= p.len(),
        k != key,
    ensures
        last_value(p.insert(i, (k, v)), key) == last_value(p, key),
        has_key(p.insert(i, (k, v)), key) == has_key(p, key),
    decreases p.len(),
{
    let q = p.insert(i, (k, v));
    if has_key(q, key) {
        let j = choose|j: int| 0 <= j < q.len() && #[trigger] q[j].0 == key;
        if j < i {
            assert(p[j].0 == key);
        } else {
            assert(j > i);
            assert(p[j - 1].0 == key);
        }
    }
    if has_key(p, key) {
        let j = choose|j: int| 0 <= j < p.len() && #[trigger] p[j].0 == key;
        if j < i {
            assert(q[j].0 == key);
        } else {
            assert(q[j + 1].0 == key);
        }
    }
    if i == p.len() {
        assert(q.drop_last() =~= p);
        assert(q.last() == (k, v));
    } else {
        assert(q.last() == p.last());
        assert(q.drop_last() =~= p.drop_last().insert(i, (k, v)));
        lemma_insert_other_key(p.drop_last(), i, k, v, key);
    }
}

/// Whether a callback ends the login well depends only on its `code`,
/// `state` and `error` pairs: adding a pair with any other key (such as
/// the `scope` that Google sends) anywhere in the query changes nothing.
pub proof fn lemma_callback_ignores_other_pairs(
    h1: Seq<char>,
    h2: Seq<char>,
    expected_state: Seq<char>,
    i: int,
    k: Seq<char>,
    v: Seq<char>,
)
    requires
        is_callback_get(h1),
        is_callback_get(h2),
        0 <= i <= head_query_pairs(h1).len(),
        head_query_pairs(h2) == head_query_pairs(h1).insert(i, (k, v)),
        k != "code"@,
        k != "state"@,
        k != "error"@,
    ensures
        reply_spec(Some(h1), expected_state) == reply_spec(Some(h2), expected_state),
{
    reveal_strlit("GET");
    reveal_strlit("/favicon.ico");
    reveal_strlit("/callback");
    assert("/favicon.ico"@ != "/callback"@) by {
        assert("/favicon.ico"@.len() != "/callback"@.len());
    }
    let p = head_query_pairs(h1);
    lemma_insert_other_key(p, i, k, v, "code"@);
    lemma_insert_other_key(p, i, k, v, "state"@);
    lemma_insert_other_key(p, i, k, v, "error"@);
}

/// A callback without an `error` pair whose last `state` is the expected
/// one and whose last `code` is valid ends the login with that code and
/// the connected page.
pub proof fn lemma_callback_accepted(head: Seq<char>, expected_state: Seq<char>, ci: int, si: int)
    requires
        is_callback_get(head),
        0 <= ci < head_query_pairs(head).len(),
        head_query_pairs(head)[ci].0 == "code"@,
        forall|j: int| ci < j < head_query_pairs(head).len() ==> #[trigger] head_query_pairs(head)[j].0 != "code"@,
        valid_code_spec(head_query_pairs(head)[ci].1),
        0 <= si < head_query_pairs(head).len(),
        head_query_pairs(head)[si] == ("state"@, expected_state),
        forall|j: int| si < j < head_query_pairs(head).len() ==> #[trigger] head_query_pairs(head)[j].0 != "state"@,
        forall|j: int| 0 <= j < head_query_pairs(head).len() ==> #[trigger] head_query_pairs(head)[j].0 != "error"@,
    ensures
        reply_spec(Some(head), expected_state) == (Page::Connected, Some(Ok::<Seq<char>, Seq<char>>(head_query_pairs(head)[ci].1))),
{
    reveal_strlit("GET");
    reveal_strlit("/favicon.ico");
    reveal_strlit("/callback");
    assert("/favicon.ico"@ != "/callback"@) by {
        assert("/favicon.ico"@.len() != "/callback"@.len());
    }
    let p = head_query_pairs(head);
    lemma_last_value_at(p, "code"@, ci);
    lemma_last_value_at(p, "state"@, si);
}

proof fn lemma_last_value_at(p: Seq<(Seq<char>, Seq<char>)>, key: Seq<char>, i: int)
    requires
        0 <= i < p.len(),
        p[i].0 == key,
        forall|j: int| i < j < p.len() ==> #[trigger] p[j].0 != key,
    ensures
        last_value(p, key) == p[i].1,
    decreases p.len(),
{
    if i < p.len() - 1 {
        assert(p.last() == p[p.len() - 1]);
        assert(p.drop_last()[i] == p[i]);
        assert forall|j: int| i < j < p.drop_last().len() implies #[trigger] p.drop_last()[j].0 != key by {
            assert(p.drop_last()[j] == p[j]);
        }
        lemma_last_value_at(p.drop_last(), key, i);
    }
}

/// The page shown after a successful login.
pub const CONNECTED_HTML: &'static str = "<!doctype html><meta charset=\"utf-8\"><title>TikTube</title><body style=\"font-family:Segoe UI,sans-serif;background:#141820;color:#efe7d6;padding:24px\"><p>TikTube ist verbunden. Dieses Fenster kann geschlossen werden.</p>";

/// The page shown after a failed login.
pub const FAILED_HTML: &'static str = "<!doctype html><meta charset=\"utf-8\"><title>TikTube</title><body style=\"font-family:Segoe UI,sans-serif;background:#141820;color:#efe7d6;padding:24px\"><p>Die Anmeldung konnte nicht abgeschlossen werden.</p>";

/// Status, content type and body of a page.
pub open spec fn page_parts(page: Page) -> (u16, Seq<char>, Seq<char>) {
    match page {
        Page::Connected => (200, "text/html; charset=utf-8"@, CONNECTED_HTML@),
        Page::Failed => (200, "text/html; charset=utf-8"@, FAILED_HTML@),
        Page::NotFound => (404, "text/plain"@, "no"@),
    }
}

pub fn page_response(page: &Page) -> (r: (u16, &'static str, &'static str))
    ensures
        (r.0, r.1@, r.2@) == page_parts(*page),
{
    match page {
        Page::Connected => (200, "text/html; charset=utf-8", CONNECTED_HTML),
        Page::Failed => (200, "text/html; charset=utf-8", FAILED_HTML),
        Page::NotFound => (404, "text/plain", "no"),
    }
}

/// The status line and headers of a response with a body of `body_len`
/// bytes; the connection is closed afterwards.
pub open spec fn response_head_spec(status: u16, content_type: Seq<char>, body_len: nat) -> Seq<
    char,
> {
    let reason = if status == 200 {
        "OK"@
    } else {
        "Not Found"@
    };
    "HTTP/1.1 "@ + decimal_spec(status as nat) + " "@ + reason + "\r\nContent-Type: "@
        + content_type + "\r\nContent-Length: "@ + decimal_spec(body_len)
        + "\r\nConnection: close\r\n\r\n"@
}

pub fn response_head(status: u16, content_type: &str, body_len: usize) -> (r: String)
    ensures
        r@ == response_head_spec(status, content_type@, body_len as nat),
{
    let reason = if status == 200 {
        "OK"
    } else {
        "Not Found"
    };
    let mut r = owned("HTTP/1.1 ");
    r.append(decimal(status as u64).as_str());
    r.append(" ");
    r.append(reason);
    r.append("\r\nContent-Type: ");
    r.append(content_type);
    r.append("\r\nContent-Length: ");
    r.append(decimal(body_len as u64).as_str());
    r.append("\r\nConnection: close\r\n\r\n");
    r
}

/// How accepting a connection on the non-blocking listener went.
#[derive(Debug, Clone, Copy, PartialEq, Eq, Structural)]
pub enum AcceptOutcome {
    /// A browser connected.
    Connection,
    /// Nobody is waiting yet.
    WouldBlock,
    /// Any other failure.
    Failed,
}

/// What the listener does next.
#[derive(Debug, Clone, PartialEq, Eq)]
pub enum ListenStep {
    /// Read the request and answer it.
    Serve,
    /// Sleep briefly and try again.
    Wait,
    /// End the login with this message.
    Stop(String),
}

pub open spec fn cancelled_msg() -> Seq<char> {
    "Anmeldung abgebrochen."@
}

/// How long the listener waits for the browser: three minutes.
pub const LOGIN_TIMEOUT_NANOS: u128 = 180_000_000_000;

/// Whether the listener must stop before accepting: when the login was
/// cancelled, or when more than three minutes have passed.
pub fn listen_gate(cancelled: bool, elapsed_nanos: u128) -> (r: Option<String>)
    ensures
        cancelled ==> (r matches Some(m) && m@ == cancelled_msg()),
        !cancelled && elapsed_nanos > LOGIN_TIMEOUT_NANOS ==> (r matches Some(m) && m@
            == login_failed_msg()),
        !cancelled && elapsed_nanos <= LOGIN_TIMEOUT_NANOS ==> r is None,
{
    if cancelled {
        return Some(owned("Anmeldung abgebrochen."));
    }
    if elapsed_nanos > LOGIN_TIMEOUT_NANOS {
        return Some(owned("Die Anmeldung konnte nicht abgeschlossen werden."));
    }
    None
}

/// What the listener does after an attempt to accept a connection.
pub fn accept_step(outcome: AcceptOutcome) -> (r: ListenStep)
    ensures
        outcome is Connection ==> r is Serve,
        outcome is WouldBlock ==> r is Wait,
        outcome is Failed ==> (r matches ListenStep::Stop(m) && m@ == login_failed_msg()),
{
    match outcome {
        AcceptOutcome::Connection => ListenStep::Serve,
        AcceptOutcome::WouldBlock => ListenStep::Wait,
        AcceptOutcome::Failed => ListenStep::Stop(
            owned("Die Anmeldung konnte nicht abgeschlossen werden."),
        ),
    }
}

/// The message shown when the redirect port is taken.
pub fn port_busy_message() -> (r: String)
    ensures
        r@ == "Der Anmelde-Port "@ + decimal_spec(crate::model::REDIRECT_PORT as nat)
            + " ist belegt."@,
{
    let mut r = owned("Der Anmelde-Port ");
    r.append(decimal(crate::model::REDIRECT_PORT as u64).as_str());
    r.append(" ist belegt.");
    r
}

/// The message shown when the listener cannot be set up.
pub fn listener_setup_failed_message() -> (r: String)
    ensures
        r@ == "Die Anmeldung konnte nicht gestartet werden."@,
{
    owned("Die Anmeldung konnte nicht gestartet werden.")
}


/// Whether the bytes read so far hold the blank line that ends a request
/// head, `\r\n\r\n`.
pub open spec fn head_complete_spec(buf: Seq<u8>) -> bool {
    exists|i: int|
        0 <= i && i + 4 <= buf.len() && #[trigger] buf.subrange(i, i + 4) == seq![13u8, 10u8, 13u8, 10u8]
}

pub fn head_complete(buf: &[u8]) -> (r: bool)
    ensures
        r == head_complete_spec(buf@),
{
    let n = buf.len();
    if n < 4 {
        return false;
    }
    let mut i: usize = 0;
    loop
        invariant
            n == buf@.len(),
            4 <= n,
            i <= n - 4,
            forall|k: int| 0 <= k < i ==> #[trigger] buf@.subrange(k, k + 4) != seq![13u8, 10u8, 13u8, 10u8],
        decreases n - 4 - i,
    {
        if buf[i] == 13 && buf[i + 1] == 10 && buf[i + 2] == 13 && buf[i + 3] == 10 {
            assert(buf@.subrange(i as int, i + 4) =~= seq![13u8, 10u8, 13u8, 10u8]);
            return true;
        }
        assert(buf@.subrange(i as int, i + 4) != seq![13u8, 10u8, 13u8, 10u8]) by {
            let w = buf@.subrange(i as int, i + 4);
            if w == seq![13u8, 10u8, 13u8, 10u8] {
                assert(w[0] == buf@[i as int]);
                assert(w[1] == buf@[i + 1]);
                assert(w[2] == buf@[i + 2]);
                assert(w[3] == buf@[i + 3]);
            }
        }
        if i == n - 4 {
            return false;
        }
        i = i + 1;
    }
}

/// The most bytes read of a request head.
pub const MAX_HEAD_BYTES: usize = 8192;

} // verus!
