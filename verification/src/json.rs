//! JSON documents read one level at a time.
//!
//! A document is parsed with `serde_json` into its top-level node; the
//! children of arrays and objects are kept as their compact JSON text, so a
//! reader descends by parsing a child's text in turn.

use vstd::prelude::*;
use crate::text::{str_eq, views};
use crate::json_sort::keys_strictly_ordered;
use serde_json::Value;

verus! {

/// Top level of a parsed JSON document; children as compact JSON text.
#[derive(Clone, Debug, PartialEq, Eq)]
pub enum JsonNode {
    Null,
    Bool(bool),
    Number,
    Str(String),
    /// Elements, each as compact JSON text.
    Array(Vec<String>),
    /// Members in key order, each value as compact JSON text.
    Object(Vec<(String, String)>),
}

/// Mathematical model of a [`JsonNode`].
pub enum JsonNodeView {
    Null,
    Bool(bool),
    Number,
    Str(Seq<char>),
    Array(Seq<Seq<char>>),
    Object(Seq<(Seq<char>, Seq<char>)>),
}

pub open spec fn member_views(m: Seq<(String, String)>) -> Seq<(Seq<char>, Seq<char>)> {
    m.map_values(|p: (String, String)| (p.0@, p.1@))
}

impl View for JsonNode {
    type V = JsonNodeView;

    open spec fn view(&self) -> JsonNodeView {
        match self {
            JsonNode::Null => JsonNodeView::Null,
            JsonNode::Bool(b) => JsonNodeView::Bool(*b),
            JsonNode::Number => JsonNodeView::Number,
            JsonNode::Str(s) => JsonNodeView::Str(s@),
            JsonNode::Array(v) => JsonNodeView::Array(v.deep_view()),
            JsonNode::Object(m) => JsonNodeView::Object(member_views(m@)),
        }
    }
}

/// What `serde_json::from_str::<serde_json::Value>` makes of a text: the
/// top-level node, or the parser's error message.
pub uninterp spec fn json_top_level(text: Seq<char>) -> Result<JsonNodeView, Seq<char>>;

/// Parse a JSON text with `serde_json::from_str` into its top-level node.
/// Trusted: the result is `json_top_level` of the text, children rendered
/// with `serde_json`'s compact `Display`, members in the map's key order
/// (`serde_json::Map` is a `BTreeMap<String, Value>` here, so each key
/// appears once and keys increase by character); an error carries the
/// `serde_json::Error` message.
#[verifier::external_body]
pub fn parse_json(text: &str) -> (r: Result<JsonNode, String>)
    ensures
        match (r, json_top_level(text@)) {
            (Ok(n), Ok(m)) => n@ == m,
            (Err(e), Err(m)) => e@ == m,
            _ => false,
        },
        r matches Ok(JsonNode::Object(m)) ==> keys_strictly_ordered(member_views(m@)),
{
    match serde_json::from_str::<Value>(text) {
        Ok(Value::Null) => Ok(JsonNode::Null),
        Ok(Value::Bool(b)) => Ok(JsonNode::Bool(b)),
        Ok(Value::Number(_)) => Ok(JsonNode::Number),
        Ok(Value::String(s)) => Ok(JsonNode::Str(s)),
        Ok(Value::Array(a)) => Ok(JsonNode::Array(a.iter().map(Value::to_string).collect())),
        Ok(Value::Object(o)) => Ok(JsonNode::Object(o.into_iter().map(|(k, x)| (k, x.to_string())).collect())),
        Err(e) => Err(e.to_string()),
    }
}

/// The value text of the first member named `key`.
pub open spec fn lookup(members: Seq<(Seq<char>, Seq<char>)>, key: Seq<char>) -> Option<Seq<char>>
    decreases members.len(),
{
    if members.len() == 0 {
        None
    } else if members[0].0 == key {
        Some(members[0].1)
    } else {
        lookup(members.drop_first(), key)
    }
}

/// `value.get(key)` on a JSON text: the member's text when the text is an object.
pub open spec fn json_get(text: Seq<char>, key: Seq<char>) -> Option<Seq<char>> {
    match json_top_level(text) {
        Ok(JsonNodeView::Object(members)) => lookup(members, key),
        _ => None,
    }
}

/// `get` on an optional JSON text.
pub open spec fn json_get_opt(text: Option<Seq<char>>, key: Seq<char>) -> Option<Seq<char>> {
    match text {
        Some(t) => json_get(t, key),
        None => None,
    }
}

/// `value.as_str()` on a JSON text.
pub open spec fn json_as_str(text: Seq<char>) -> Option<Seq<char>> {
    match json_top_level(text) {
        Ok(JsonNodeView::Str(s)) => Some(s),
        _ => None,
    }
}

/// `as_str` on an optional JSON text, keeping only non-empty strings.
pub open spec fn nonempty_str(text: Option<Seq<char>>) -> Option<Seq<char>> {
    match text {
        Some(t) => match json_as_str(t) {
            Some(s) => if s.len() > 0 {
                Some(s)
            } else {
                None
            },
            None => None,
        },
        None => None,
    }
}

/// Look a member up by key in an object's members.
pub fn lookup_member<'a>(members: &'a Vec<(String, String)>, key: &str) -> (r: Option<&'a String>)
    ensures
        match (r, lookup(member_views(members@), key@)) {
            (Some(v), Some(m)) => v@ == m,
            (None, None) => true,
            _ => false,
        },
{
    let mut i: usize = 0;
    let ghost mv = member_views(members@);
    assert(mv.subrange(0, mv.len() as int) == mv);
    while i < members.len()
        invariant
            mv == member_views(members@),
            i <= members@.len(),
            lookup(mv, key@) == lookup(mv.subrange(i as int, mv.len() as int), key@),
        decreases members@.len() - i,
    {
        let ghost rest = mv.subrange(i as int, mv.len() as int);
        assert(rest[0] == (members@[i as int].0@, members@[i as int].1@));
        if str_eq(members[i].0.as_str(), key) {
            return Some(&members[i].1);
        }
        assert(rest.drop_first() == mv.subrange(i + 1, mv.len() as int));
        i = i + 1;
    }
    None
}

/// `value.get(key)` on a JSON text.
pub fn get_member(text: &str, key: &str) -> (r: Option<String>)
    ensures
        match (r, json_get(text@, key@)) {
            (Some(v), Some(m)) => v@ == m,
            (None, None) => true,
            _ => false,
        },
{
    match parse_json(text) {
        Ok(JsonNode::Object(members)) => match lookup_member(&members, key) {
            Some(v) => Some(v.clone()),
            None => None,
        },
        _ => None,
    }
}

/// `value.as_str()` filtered to non-empty strings.
pub fn get_nonempty_str(text: &Option<String>) -> (r: Option<String>)
    ensures
        r.deep_view() == nonempty_str(text.deep_view()),
{
    match text {
        Some(t) => match parse_json(t.as_str()) {
            Ok(JsonNode::Str(s)) => if s.unicode_len() > 0 {
                Some(s)
            } else {
                None
            },
            _ => None,
        },
        None => None,
    }
}

/// `get` on an optional JSON text.
pub fn get_member_opt(text: &Option<String>, key: &str) -> (r: Option<String>)
    ensures
        r.deep_view() == json_get_opt(text.deep_view(), key@),
{
    match text {
        Some(t) => get_member(t.as_str(), key),
        None => None,
    }
}

} // verus!
