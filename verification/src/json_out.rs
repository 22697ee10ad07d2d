//! JSON output: a value tree and its pretty text, two spaces per level,
//! `"key": value` members, empty containers as `[]` and `{}`.

use vstd::prelude::*;
use crate::integrity::{hex_char, hex_digit};
use crate::numbers::{decimal, u64_to_decimal};
use crate::text::{concat2, string_views};

verus! {

/// A JSON value to be written.
#[derive(Debug)]
pub enum JsonOut {
    Null,
    Bool(bool),
    /// A number, already written in decimal.
    Number(String),
    Str(String),
    /// Compact JSON text written verbatim.
    Raw(String),
    Array(Vec<JsonOut>),
    Object(Vec<(String, JsonOut)>),
}

/// Escape of one character inside a JSON string.
pub open spec fn escape_char(c: char) -> Seq<char> {
    if c == '"' {
        seq!['\\', '"']
    } else if c == '\\' {
        seq!['\\', '\\']
    } else if c == '\n' {
        seq!['\\', 'n']
    } else if c == '\r' {
        seq!['\\', 'r']
    } else if c == '\t' {
        seq!['\\', 't']
    } else if c == '\u{08}' {
        seq!['\\', 'b']
    } else if c == '\u{0C}' {
        seq!['\\', 'f']
    } else if (c as u32) < 0x20 {
        seq!['\\', 'u', '0', '0', hex_char(((c as u32) / 16) as u8), hex_char(((c as u32) % 16) as u8)]
    } else {
        seq![c]
    }
}

/// Escaped body of a JSON string.
pub open spec fn escape(s: Seq<char>) -> Seq<char>
    decreases s.len(),
{
    if s.len() == 0 {
        Seq::empty()
    } else {
        escape(s.drop_last()) + escape_char(s.last())
    }
}

/// A JSON string literal.
pub open spec fn quoted(s: Seq<char>) -> Seq<char> {
    seq!['"'] + escape(s) + seq!['"']
}

/// Two spaces per indentation level.
pub open spec fn indent(depth: nat) -> Seq<char>
    decreases depth,
{
    if depth == 0 {
        Seq::empty()
    } else {
        indent((depth - 1) as nat) + seq![' ', ' ']
    }
}

/// Mathematical model of a [`JsonOut`] value.
pub enum JsonV {
    Null,
    Bool(bool),
    Number(Seq<char>),
    Str(Seq<char>),
    Raw(Seq<char>),
    Array(Seq<JsonV>),
    Object(Seq<(Seq<char>, JsonV)>),
}

/// The model of a value.
pub open spec fn json_view(v: JsonOut) -> JsonV
    decreases v, 1nat,
{
    match v {
        JsonOut::Null => JsonV::Null,
        JsonOut::Bool(b) => JsonV::Bool(b),
        JsonOut::Number(n) => JsonV::Number(n@),
        JsonOut::Str(s) => JsonV::Str(s@),
        JsonOut::Raw(t) => JsonV::Raw(t@),
        JsonOut::Array(items) => JsonV::Array(view_items(items@)),
        JsonOut::Object(members) => JsonV::Object(view_members(members@)),
    }
}

pub open spec fn view_items(items: Seq<JsonOut>) -> Seq<JsonV>
    decreases items, 0nat,
{
    if items.len() == 0 {
        Seq::empty()
    } else {
        view_items(items.subrange(0, items.len() - 1)).push(json_view(items[items.len() - 1]))
    }
}

pub open spec fn view_members(members: Seq<(String, JsonOut)>) -> Seq<(Seq<char>, JsonV)>
    decreases members, 0nat,
{
    if members.len() == 0 {
        Seq::empty()
    } else {
        let m = members[members.len() - 1];
        view_members(members.subrange(0, members.len() - 1)).push((m.0@, json_view(m.1)))
    }
}

impl View for JsonOut {
    type V = JsonV;

    open spec fn view(&self) -> JsonV {
        json_view(*self)
    }
}

proof fn lemma_view_items_len(items: Seq<JsonOut>)
    ensures
        view_items(items).len() == items.len(),
    decreases items.len(),
{
    if items.len() > 0 {
        lemma_view_items_len(items.subrange(0, items.len() - 1));
    }
}

proof fn lemma_view_members_len(members: Seq<(String, JsonOut)>)
    ensures
        view_members(members).len() == members.len(),
    decreases members.len(),
{
    if members.len() > 0 {
        lemma_view_members_len(members.subrange(0, members.len() - 1));
    }
}

/// Pretty text of a value whose first line starts at indentation `depth`.
pub open spec fn pretty(v: JsonV, depth: nat) -> Seq<char>
    decreases v, 1nat,
{
    match v {
        JsonV::Null => "null"@,
        JsonV::Bool(b) => if b {
            "true"@
        } else {
            "false"@
        },
        JsonV::Number(n) => n,
        JsonV::Str(s) => quoted(s),
        JsonV::Raw(t) => t,
        JsonV::Array(items) => if items.len() == 0 {
            "[]"@
        } else {
            seq!['['] + pretty_items(items, depth + 1) + seq!['\n'] + indent(depth) + seq![']']
        },
        JsonV::Object(members) => if members.len() == 0 {
            "{}"@
        } else {
            seq!['{'] + pretty_members(members, depth + 1) + seq!['\n'] + indent(depth) + seq!['}']
        },
    }
}

/// Array elements, each on its own line at `depth`, separated by commas.
pub open spec fn pretty_items(items: Seq<JsonV>, depth: nat) -> Seq<char>
    decreases items, 0nat,
{
    if items.len() == 0 {
        Seq::empty()
    } else {
        let init = items.subrange(0, items.len() - 1);
        let sep = if init.len() == 0 {
            seq!['\n']
        } else {
            seq![',', '\n']
        };
        pretty_items(init, depth) + sep + indent(depth) + pretty(items[items.len() - 1], depth)
    }
}

/// Object members, each on its own line at `depth`, separated by commas.
pub open spec fn pretty_members(members: Seq<(Seq<char>, JsonV)>, depth: nat) -> Seq<char>
    decreases members, 0nat,
{
    if members.len() == 0 {
        Seq::empty()
    } else {
        let init = members.subrange(0, members.len() - 1);
        let sep = if init.len() == 0 {
            seq!['\n']
        } else {
            seq![',', '\n']
        };
        let m = members[members.len() - 1];
        pretty_members(init, depth) + sep + indent(depth) + quoted(m.0) + seq![':', ' '] + pretty(
            m.1,
            depth,
        )
    }
}

/// Append the escape of the character `piece` holds.
fn push_escaped(out: &mut String, piece: &str)
    requires
        piece@.len() == 1,
    ensures
        final(out)@ == old(out)@ + escape_char(piece@[0]),
{
    let c = piece.get_char(0);
    if c == '"' {
        proof { reveal_strlit("\\\""); }
        out.append("\\\"");
    } else if c == '\\' {
        proof { reveal_strlit("\\\\"); }
        out.append("\\\\");
    } else if c == '\n' {
        proof { reveal_strlit("\\n"); }
        out.append("\\n");
    } else if c == '\r' {
        proof { reveal_strlit("\\r"); }
        out.append("\\r");
    } else if c == '\t' {
        proof { reveal_strlit("\\t"); }
        out.append("\\t");
    } else if c == '\u{08}' {
        proof { reveal_strlit("\\b"); }
        out.append("\\b");
    } else if c == '\u{0C}' {
        proof { reveal_strlit("\\f"); }
        out.append("\\f");
    } else if (c as u32) < 0x20 {
        proof { reveal_strlit("\\u00"); }
        out.append("\\u00");
        let hi = ((c as u32) / 16) as u8;
        let lo = ((c as u32) % 16) as u8;
        out.append(hex_digit(hi));
        out.append(hex_digit(lo));
    } else {
        out.append(piece);
    }
}

/// Append a JSON string literal.
fn push_quoted(out: &mut String, s: &str)
    ensures
        final(out)@ == old(out)@ + quoted(s@),
{
    proof { reveal_strlit("\""); }
    out.append("\"");
    let n = s.unicode_len();
    let ghost start = out@;
    let mut i: usize = 0;
    while i < n
        invariant
            n == s@.len(),
            i <= n,
            out@ == start + escape(s@.subrange(0, i as int)),
        decreases n - i,
    {
        let piece = s.substring_char(i, i + 1);
        proof {
            assert(s@.subrange(0, i + 1).drop_last() == s@.subrange(0, i as int));
            assert(s@.subrange(0, i + 1).last() == piece@[0]);
        }
        push_escaped(out, piece);
        i = i + 1;
    }
    assert(s@.subrange(0, n as int) == s@);
    out.append("\"");
}

/// The indentation one level deeper than `pad`.
fn deeper(pad: &str, Ghost(depth): Ghost<nat>) -> (r: String)
    requires
        pad@ == indent(depth),
    ensures
        r@ == indent(depth + 1),
{
    proof {
        reveal_strlit("  ");
    }
    concat2(pad, "  ")
}

/// Append the pretty text of `v` at indentation `depth`.
fn push_pretty(out: &mut String, v: &JsonOut, pad: &str, Ghost(depth): Ghost<nat>)
    requires
        pad@ == indent(depth),
    ensures
        final(out)@ == old(out)@ + pretty(v@, depth),
    decreases *v,
{
    match v {
        JsonOut::Null => {
            proof { reveal_strlit("null"); }
            out.append("null");
        },
        JsonOut::Bool(b) => {
            if *b {
                proof { reveal_strlit("true"); }
                out.append("true");
            } else {
                proof { reveal_strlit("false"); }
                out.append("false");
            }
        },
        JsonOut::Number(n) => {
            out.append(n.as_str());
        },
        JsonOut::Str(s) => {
            push_quoted(out, s.as_str());
        },
        JsonOut::Raw(t) => {
            out.append(t.as_str());
        },
        JsonOut::Array(items) => {
            if items.len() == 0 {
                proof { reveal_strlit("[]"); }
                out.append("[]");
            } else {
                proof { reveal_strlit("["); }
                out.append("[");
                let ghost start = out@;
                let inner = deeper(pad, Ghost(depth));
                let mut i: usize = 0;
                while i < items.len()
                    invariant
                        i <= items@.len(),
                        inner@ == indent(depth + 1),
                        *v == JsonOut::Array(*items),
                        out@ == start + pretty_items(view_items(items@.subrange(0, i as int)), depth + 1),
                    decreases items@.len() - i,
                {
                    let ghost pre = view_items(items@.subrange(0, i as int));
                    proof {
                        assert(items@.subrange(0, i + 1).subrange(0, i as int) == items@.subrange(
                            0,
                            i as int,
                        ));
                        lemma_view_items_len(items@.subrange(0, i as int));
                        assert(view_items(items@.subrange(0, i + 1)) == pre.push(items@[i as int]@));
                        assert(pre.push(items@[i as int]@).subrange(0, i as int) == pre);
                    }
                    if i == 0 {
                        proof { reveal_strlit("\n"); }
                        out.append("\n");
                    } else {
                        out.append(",\n");
                        proof { reveal_strlit(",\n"); }
                    }
                    out.append(inner.as_str());
                    proof {
                        assert(decreases_to!(*v => (*v)->Array_0));
                        assert(decreases_to!(*items => items@));
                        assert(decreases_to!(items@ => items@[i as int]));
                    }
                    push_pretty(out, &items[i], inner.as_str(), Ghost(depth + 1));
                    i = i + 1;
                }
                assert(items@.subrange(0, items@.len() as int) == items@);
                proof { reveal_strlit("\n"); }
                        out.append("\n");
                out.append(pad);
                proof { reveal_strlit("]"); }
                out.append("]");
            }
        },
        JsonOut::Object(members) => {
            if members.len() == 0 {
                proof { reveal_strlit("{}"); }
                out.append("{}");
            } else {
                proof { reveal_strlit("{"); }
                out.append("{");
                let ghost start = out@;
                let inner = deeper(pad, Ghost(depth));
                let mut i: usize = 0;
                while i < members.len()
                    invariant
                        i <= members@.len(),
                        inner@ == indent(depth + 1),
                        *v == JsonOut::Object(*members),
                        out@ == start + pretty_members(view_members(members@.subrange(0, i as int)), depth + 1),
                    decreases members@.len() - i,
                {
                    let ghost pre = view_members(members@.subrange(0, i as int));
                    let ghost mv = (members@[i as int].0@, members@[i as int].1@);
                    proof {
                        assert(members@.subrange(0, i + 1).subrange(0, i as int)
                            == members@.subrange(0, i as int));
                        lemma_view_members_len(members@.subrange(0, i as int));
                        assert(view_members(members@.subrange(0, i + 1)) == pre.push(mv));
                        assert(pre.push(mv).subrange(0, i as int) == pre);
                    }
                    if i == 0 {
                        proof { reveal_strlit("\n"); }
                        out.append("\n");
                    } else {
                        out.append(",\n");
                        proof { reveal_strlit(",\n"); }
                    }
                    out.append(inner.as_str());
                    push_quoted(out, members[i].0.as_str());
                    out.append(": ");
                    proof { reveal_strlit(": "); }
                    proof {
                        assert(decreases_to!(*v => (*v)->Object_0));
                        assert(decreases_to!(*members => members@));
                        assert(decreases_to!(members@ => members@[i as int]));
                        assert(decreases_to!(members@[i as int] => members@[i as int].1));
                    }
                    push_pretty(out, &members[i].1, inner.as_str(), Ghost(depth + 1));
                    i = i + 1;
                }
                assert(members@.subrange(0, members@.len() as int) == members@);
                proof { reveal_strlit("\n"); }
                        out.append("\n");
                out.append(pad);
                proof { reveal_strlit("}"); }
                out.append("}");
            }
        },
    }
}

/// Pretty JSON text of a value.
pub fn to_pretty_json(v: &JsonOut) -> (r: String)
    ensures
        r@ == pretty(v@, 0),
{
    let mut out = String::new();
    let pad = String::new();
    push_pretty(&mut out, v, pad.as_str(), Ghost(0));
    out
}

/// Append a member to an object under construction.
pub fn push_member(members: &mut Vec<(String, JsonOut)>, key: &str, value: JsonOut)
    ensures
        view_members(final(members)@) == view_members(old(members)@).push((key@, value@)),
{
    let ghost before = members@;
    members.push((key.to_owned(), value));
    assert(members@.subrange(0, members@.len() - 1) == before);
}

/// Append an element to an array under construction.
pub fn push_item(items: &mut Vec<JsonOut>, value: JsonOut)
    ensures
        view_items(final(items)@) == view_items(old(items)@).push(value@),
{
    let ghost before = items@;
    items.push(value);
    assert(items@.subrange(0, items@.len() - 1) == before);
}

/// String values as JSON strings.
pub open spec fn str_values(ss: Seq<Seq<char>>) -> Seq<JsonV> {
    ss.map_values(|s: Seq<char>| JsonV::Str(s))
}

/// An array of strings.
pub fn json_str_array(v: &Vec<String>) -> (r: JsonOut)
    ensures
        r@ == JsonV::Array(str_values(string_views(v@))),
{
    let mut items: Vec<JsonOut> = Vec::new();
    let mut i: usize = 0;
    while i < v.len()
        invariant
            i <= v@.len(),
            view_items(items@) == str_values(string_views(v@.subrange(0, i as int))),
        decreases v@.len() - i,
    {
        push_item(&mut items, JsonOut::Str(v[i].clone()));
        proof {
            assert(string_views(v@.subrange(0, i + 1)) == string_views(v@.subrange(0, i as int)).push(
                v@[i as int]@,
            ));
            assert(str_values(string_views(v@.subrange(0, i + 1))) == str_values(
                string_views(v@.subrange(0, i as int)),
            ).push(JsonV::Str(v@[i as int]@)));
        }
        i = i + 1;
    }
    assert(v@.subrange(0, v@.len() as int) == v@);
    JsonOut::Array(items)
}

/// An optional string: the string or `null`.
pub open spec fn opt_str_json(s: Option<Seq<char>>) -> JsonV {
    match s {
        Some(x) => JsonV::Str(x),
        None => JsonV::Null,
    }
}

/// An optional string value.
pub fn json_opt_str(s: &Option<String>) -> (r: JsonOut)
    ensures
        r@ == opt_str_json(match *s {
            Some(x) => Some(x@),
            None => None,
        }),
{
    match s {
        Some(x) => JsonOut::Str(x.clone()),
        None => JsonOut::Null,
    }
}

/// A number written from an unsigned integer.
pub fn json_usize(n: usize) -> (r: JsonOut)
    ensures
        r@ == JsonV::Number(decimal(n as nat)),
{
    JsonOut::Number(u64_to_decimal(n as u64))
}

} // verus!
