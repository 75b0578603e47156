//! The rules applied to the answers of the platforms' web APIs, and the
//! messages shown when a call fails.

use vstd::prelude::*;

use crate::json::{json_parse, json_view, parse_json, Json, JsonView};
use crate::text::owned;
use crate::urls::{form_encode, form_urlencoded_serialize, pairs_view};

verus! {

/// Why a call to a platform API failed.
#[derive(Debug, Clone, Copy, PartialEq, Eq, Structural)]
pub enum NetFail {
    /// The request could not be sent or the answer could not be read.
    Offline,
    /// The platform refused the credentials (status 401 or 403).
    Denied,
    /// Any other failure: an answer too large, an error status, or a body
    /// that is not JSON.
    Other,
}

pub open spec fn youtube_fail_msg(f: NetFail) -> Seq<char> {
    match f {
        NetFail::Denied => "YouTube-Sitzung abgelaufen. Bitte erneut verbinden."@,
        _ => "Die Verbindung zu YouTube ist momentan nicht verfügbar."@,
    }
}

pub open spec fn tiktok_fail_msg(f: NetFail) -> Seq<char> {
    match f {
        NetFail::Denied => "TikTok-Sitzung abgelaufen. Bitte erneut verbinden."@,
        _ => "Die Verbindung zu TikTok ist momentan nicht verfügbar."@,
    }
}

impl NetFail {
    /// The message shown for a failed YouTube call.
    pub fn youtube(self) -> (r: String)
        ensures
            r@ == youtube_fail_msg(self),
    {
        match self {
            NetFail::Denied => owned("YouTube-Sitzung abgelaufen. Bitte erneut verbinden."),
            NetFail::Offline | NetFail::Other => owned(
                "Die Verbindung zu YouTube ist momentan nicht verfügbar.",
            ),
        }
    }

    /// The message shown for a failed TikTok call.
    pub fn tiktok(self) -> (r: String)
        ensures
            r@ == tiktok_fail_msg(self),
    {
        match self {
            NetFail::Denied => owned("TikTok-Sitzung abgelaufen. Bitte erneut verbinden."),
            NetFail::Offline | NetFail::Other => owned(
                "Die Verbindung zu TikTok ist momentan nicht verfügbar.",
            ),
        }
    }
}

/// The largest answer body that is read, in bytes.
pub const MAX_BODY_BYTES: u64 = 1_000_000;

/// Whether an answer is refused before its body is read: a declared
/// length above the limit gives `Other`, then status 401 or 403 gives
/// `Denied`.
pub open spec fn head_failure(status: u16, content_length: Option<u64>) -> Option<NetFail> {
    if (match content_length {
            Some(n) => n,
            None => 0,
        }) > MAX_BODY_BYTES {
            Some(NetFail::Other)
        } else if status == 401 || status == 403 {
            Some(NetFail::Denied)
        } else {
            None::<NetFail>
        }
}

pub fn check_response_head(status: u16, content_length: Option<u64>) -> (r: Option<NetFail>)
    ensures
        r == head_failure(status, content_length),
{
    let declared = match content_length {
        Some(n) => n,
        None => 0,
    };
    if declared > MAX_BODY_BYTES {
        return Some(NetFail::Other);
    }
    if status == 401 || status == 403 {
        return Some(NetFail::Denied);
    }
    None
}

/// Whether an answer is refused once its body is read: a body above the
/// limit, or a status outside 200..=299, gives `Other`.
pub open spec fn body_failure(status: u16, body_len: int) -> Option<NetFail> {
    if body_len > MAX_BODY_BYTES || !(200 <= status <= 299) {
        Some(NetFail::Other)
    } else {
        None::<NetFail>
    }
}

pub fn check_response_body(status: u16, body_len: usize) -> (r: Option<NetFail>)
    ensures
        r == body_failure(status, body_len as int),
{
    if body_len as u64 > MAX_BODY_BYTES {
        return Some(NetFail::Other);
    }
    if !(200 <= status && status <= 299) {
        return Some(NetFail::Other);
    }
    None
}

/// The `application/x-www-form-urlencoded` body of a form post.
pub fn form_body(pairs: &Vec<(String, String)>) -> (r: String)
    ensures
        r@ == form_urlencoded_serialize(pairs_view(pairs@)),
{
    form_encode(pairs)
}

/// What an answer gives: a refusal by its head, an unreadable body
/// (`None`) as `Offline`, a refusal by its body, and otherwise the parse of
/// the body as JSON, `Other` when it is not JSON.
pub open spec fn answer_result(status: u16, content_length: Option<u64>, body: Option<Seq<u8>>) -> Result<JsonView, NetFail> {
    match head_failure(status, content_length) {
        Some(f) => Err(f),
        None => match body {
            None => Err(NetFail::Offline),
            Some(b) => match body_failure(status, b.len() as int) {
                Some(f) => Err(f),
                None => match json_parse(b) {
                    Some(v) => Ok(v),
                    None => Err(NetFail::Other),
                },
            },
        },
    }
}

pub open spec fn json_result_view(r: Result<Json, NetFail>) -> Result<JsonView, NetFail> {
    match r {
        Ok(j) => Ok(json_view(j)),
        Err(f) => Err(f),
    }
}

/// Reads an answer: its status, its declared length, and its body (`None`
/// where the body could not be read).
pub fn read_body(status: u16, content_length: Option<u64>, body: Option<&[u8]>) -> (r: Result<Json, NetFail>)
    ensures
        json_result_view(r) == answer_result(
            status,
            content_length,
            match body {
                Some(b) => Some(b@),
                None => None,
            },
        ),
{
    match check_response_head(status, content_length) {
        Some(f) => return Err(f),
        None => {},
    }
    let b = match body {
        Some(b) => b,
        None => return Err(NetFail::Offline),
    };
    match check_response_body(status, b.len()) {
        Some(f) => return Err(f),
        None => {},
    }
    match parse_json(b) {
        Some(v) => Ok(v),
        None => Err(NetFail::Other),
    }
}

} // verus!
