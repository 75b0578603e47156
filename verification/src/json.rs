//! JSON answers of the platforms' web APIs: the parse of a body into a
//! value of the library's own JSON type, and the reading of positions in
//! it, with `serde_json`'s rules for missing keys and other types.

use vstd::prelude::*;

use crate::text::{owned, parse_i64, parse_i64_spec, str_eq};

verus! {

/// A parsed JSON value of `serde_json`.
#[verifier::external_type_specification]
#[verifier::external_body]
pub struct ExJsonValue(serde_json::Value);

/// A JSON value. A number is kept as the text that `serde_json` writes for
/// it; an object keeps its members in the order of its map.
#[derive(Debug)]
pub enum Json {
    Null,
    Bool(bool),
    Number(String),
    Text(String),
    List(Vec<Json>),
    Object(Vec<(String, Json)>),
}

/// A JSON value in the proofs.
pub enum JsonView {
    Null,
    Bool(bool),
    Number(Seq<char>),
    Text(Seq<char>),
    List(Seq<JsonView>),
    Object(Seq<(Seq<char>, JsonView)>),
}

pub open spec fn json_view(j: Json) -> JsonView
    decreases j,
{
    match j {
        Json::Null => JsonView::Null,
        Json::Bool(b) => JsonView::Bool(b),
        Json::Number(n) => JsonView::Number(n@),
        Json::Text(s) => JsonView::Text(s@),
        Json::List(items) => JsonView::List(
            Seq::new(
                items@.len(),
                |i: int|
                    if 0 <= i < items@.len() {
                        json_view(items@[i])
                    } else {
                        JsonView::Null
                    },
            ),
        ),
        Json::Object(fields) => JsonView::Object(
            Seq::new(
                fields@.len(),
                |i: int|
                    if 0 <= i < fields@.len() {
                        (fields@[i].0@, json_view(fields@[i].1))
                    } else {
                        (Seq::empty(), JsonView::Null)
                    },
            ),
        ),
    }
}

pub open spec fn json_opt_view(o: Option<Json>) -> Option<JsonView> {
    match o {
        Some(j) => Some(json_view(j)),
        None => None,
    }
}

/// What `serde_json::from_slice` makes of a body, when it is JSON: the
/// value, read variant by variant (a number as the text `serde_json`
/// writes for it, an object's members in the order of its map).
pub uninterp spec fn json_parse(body: Seq<u8>) -> Option<JsonView>;

/// Converts a value that `serde_json` parsed into the library's JSON
/// type, variant by variant. It is used only by `parse_json`, whose
/// contract speaks of the whole.
#[verifier::external_body]
fn json_of(v: &serde_json::Value) -> Json {
    match v {
        serde_json::Value::Null => Json::Null,
        serde_json::Value::Bool(b) => Json::Bool(*b),
        serde_json::Value::Number(n) => Json::Number(n.to_string()),
        serde_json::Value::String(s) => Json::Text(s.clone()),
        serde_json::Value::Array(a) => Json::List(a.iter().map(json_of).collect()),
        serde_json::Value::Object(m) => Json::Object(m.iter().map(|(k, x)| (k.clone(), json_of(x))).collect()),
    }
}

/// Calls `serde_json::from_slice` into a `serde_json::Value`: `None` when
/// the body is not JSON. The result is the value named `json_parse` of the
/// body.
#[verifier::external_body]
pub fn parse_json(body: &[u8]) -> (r: Option<Json>)
    ensures
        json_opt_view(r) == json_parse(body@),
{
    match serde_json::from_slice::<serde_json::Value>(body) {
        Ok(v) => Some(json_of(&v)),
        Err(_) => None,
    }
}

pub open spec fn ref_view(o: Option<&Json>) -> Option<JsonView> {
    match o {
        Some(j) => Some(json_view(*j)),
        None => None,
    }
}

/// The first member named `key` from position `i` on.
pub open spec fn find_member(fs: Seq<(Seq<char>, JsonView)>, key: Seq<char>, i: int) -> Option<JsonView>
    decreases fs.len() - i,
{
    if i < 0 || i >= fs.len() {
        None
    } else if fs[i].0 == key {
        Some(fs[i].1)
    } else {
        find_member(fs, key, i + 1)
    }
}

/// The member `key` of an object, as `serde_json` indexes it; `None`
/// stands for what it gives as null for a missing key or a value that is
/// not an object.
pub open spec fn member(v: Option<JsonView>, key: Seq<char>) -> Option<JsonView> {
    match v {
        Some(JsonView::Object(fs)) => find_member(fs, key, 0),
        _ => None,
    }
}

/// The element at `k` of a list; `None` where there is none.
pub open spec fn element(v: Option<JsonView>, k: nat) -> Option<JsonView> {
    match v {
        Some(JsonView::List(xs)) => if k < xs.len() {
            Some(xs[k as int])
        } else {
            None
        },
        _ => None,
    }
}

/// A text value, as `as_str` reads it.
pub open spec fn text_of(v: Option<JsonView>) -> Option<Seq<char>> {
    match v {
        Some(JsonView::Text(s)) => Some(s),
        _ => None,
    }
}

/// A number that is an `i64`, as `as_i64` reads it.
pub open spec fn int_of(v: Option<JsonView>) -> Option<i64> {
    match v {
        Some(JsonView::Number(n)) => parse_i64_spec(n),
        _ => None,
    }
}

/// The elements of a list, as `as_array` reads them.
pub open spec fn list_of(v: Option<JsonView>) -> Option<Seq<JsonView>> {
    match v {
        Some(JsonView::List(xs)) => Some(xs),
        _ => None,
    }
}

pub open spec fn text_view(o: Option<String>) -> Option<Seq<char>> {
    match o {
        Some(s) => Some(s@),
        None => None,
    }
}

/// The member `key` of `v`.
pub fn member_of<'a>(v: Option<&'a Json>, key: &str) -> (r: Option<&'a Json>)
    ensures
        ref_view(r) == member(ref_view(v), key@),
{
    let j = match v {
        Some(j) => j,
        None => return None,
    };
    match j {
        Json::Object(fields) => {
            let ghost fs = Seq::new(
                fields@.len(),
                |i: int|
                    if 0 <= i < fields@.len() {
                        (fields@[i].0@, json_view(fields@[i].1))
                    } else {
                        (Seq::<char>::empty(), JsonView::Null)
                    },
            );
            proof {
                match json_view(*j) {
                    JsonView::Object(g) => {
                        assert(g =~= fs);
                    },
                    _ => {
                        assert(false);
                    },
                }
            }
            assert(ref_view(v) == Some(JsonView::Object(fs)));
            let mut i: usize = 0;
            while i < fields.len()
                invariant
                    i <= fields@.len(),
                    fs.len() == fields@.len(),
                    forall|j: int| 0 <= j < fields@.len() ==> #[trigger] fs[j] == (fields@[j].0@, json_view(fields@[j].1)),
                    find_member(fs, key@, 0) == find_member(fs, key@, i as int),
                    ref_view(v) == Some(JsonView::Object(fs)),
                decreases fields.len() - i,
            {
                assert(fs[i as int] == (fields@[i as int].0@, json_view(fields@[i as int].1)));
                if str_eq(fields[i].0.as_str(), key) {
                    assert(find_member(fs, key@, i as int) == Some(fs[i as int].1));
                    return Some(&fields[i].1);
                }
                i = i + 1;
            }
            None
        },
        _ => None,
    }
}

/// The element at `k` of `v`.
pub fn element_of<'a>(v: Option<&'a Json>, k: usize) -> (r: Option<&'a Json>)
    ensures
        ref_view(r) == element(ref_view(v), k as nat),
{
    match v {
        Some(Json::List(items)) => {
            if k < items.len() {
                Some(&items[k])
            } else {
                None
            }
        },
        _ => None,
    }
}

/// The text at `v`, if it is one.
pub fn text_at(v: Option<&Json>) -> (r: Option<String>)
    ensures
        text_view(r) == text_of(ref_view(v)),
{
    match v {
        Some(Json::Text(s)) => Some(owned(s.as_str())),
        _ => None,
    }
}

/// The `i64` at `v`, if it is one.
pub fn int_at(v: Option<&Json>) -> (r: Option<i64>)
    ensures
        r == int_of(ref_view(v)),
{
    match v {
        Some(Json::Number(n)) => parse_i64(n.as_str()),
        _ => None,
    }
}

pub open spec fn list_view(xs: Seq<Json>) -> Seq<JsonView> {
    xs.map_values(|x: Json| json_view(x))
}

/// The elements of the list at `v`, if it is one.
pub fn list_at<'a>(v: Option<&'a Json>) -> (r: Option<&'a Vec<Json>>)
    ensures
        (match r {
            Some(xs) => Some(list_view(xs@)),
            None => None,
        }) == list_of(ref_view(v)),
{
    match v {
        Some(Json::List(items)) => {
            assert(list_view(items@) =~= list_of(ref_view(v))->0);
            Some(items)
        },
        _ => None,
    }
}

} // verus!
