//! What the platforms' answers have in common: optional fields with
//! defaults, the feed limit, and login addresses with a query.

use vstd::prelude::*;

use crate::model::{MediaItem, MediaItemView};
use crate::text::owned;

verus! {

/// The value of an optional string, or `default` when there is none.
pub open spec fn or_default(o: Option<Seq<char>>, default: Seq<char>) -> Seq<char> {
    match o {
        Some(s) => s,
        None => default,
    }
}

pub open spec fn opt_view(o: Option<String>) -> Option<Seq<char>> {
    match o {
        Some(s) => Some(s@),
        None => None,
    }
}

pub(crate) fn str_or<'a>(o: &'a Option<String>, default: &'a str) -> (r: &'a str)
    ensures
        r@ == or_default(opt_view(*o), default@),
{
    match o {
        Some(s) => s.as_str(),
        None => default,
    }
}

/// How many results of a feed are kept.
pub const FEED_LIMIT: usize = 8;

pub open spec fn first_n<A>(s: Seq<A>, n: nat) -> Seq<A> {
    if s.len() <= n {
        s
    } else {
        s.take(n as int)
    }
}

pub open spec fn item_views(v: Seq<MediaItem>) -> Seq<MediaItemView> {
    v.map_values(|m: MediaItem| m@)
}

pub(crate) fn pair(k: &str, v: &str) -> (r: (String, String))
    ensures
        r.0@ == k@,
        r.1@ == v@,
{
    (owned(k), owned(v))
}

} // verus!
