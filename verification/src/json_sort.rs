//! JSON values whose objects hold their members in key order, as a
//! string-keyed ordered map does: keys compared character by character, a
//! proper prefix first, and a later member replacing an earlier one with the
//! same key.

use vstd::prelude::*;
use crate::json_out::{view_items, view_members, JsonOut, JsonV};
use crate::evidence::pair_views;

verus! {

/// Key `a` orders before key `b`: by the first differing character's code,
/// or as a proper prefix.
pub open spec fn key_lt(a: Seq<char>, b: Seq<char>) -> bool
    decreases a.len(),
{
    if a.len() == 0 {
        b.len() > 0
    } else if b.len() == 0 {
        false
    } else if a[0] != b[0] {
        a[0] < b[0]
    } else {
        key_lt(a.drop_first(), b.drop_first())
    }
}

/// The entries `sorted` with `m` put in by its key: after the smaller keys,
/// in place of an entry with the same key, else before the larger ones.
pub open spec fn insert_entry<V>(m: (Seq<char>, V), sorted: Seq<(Seq<char>, V)>) -> Seq<(Seq<char>, V)>
    decreases sorted.len(),
{
    if sorted.len() == 0 {
        seq![m]
    } else if key_lt(sorted[0].0, m.0) {
        seq![sorted[0]] + insert_entry(m, sorted.drop_first())
    } else if sorted[0].0 == m.0 {
        seq![m] + sorted.drop_first()
    } else {
        seq![m] + sorted
    }
}

/// Entries put in key order one after the other, as a string-keyed ordered
/// map collects them: the last of equal keys stays.
pub open spec fn entries_in_key_order<V>(entries: Seq<(Seq<char>, V)>) -> Seq<(Seq<char>, V)>
    decreases entries.len(),
{
    if entries.len() == 0 {
        Seq::empty()
    } else {
        insert_entry(entries.last(), entries_in_key_order(entries.drop_last()))
    }
}

/// `v` with every object's members in key order, at every depth.
pub open spec fn sorted_json(v: JsonV) -> JsonV
    decreases v, 1nat,
{
    match v {
        JsonV::Array(items) => JsonV::Array(sorted_items(items)),
        JsonV::Object(members) => JsonV::Object(sorted_members(members)),
        _ => v,
    }
}

/// Array elements, each with its objects in key order.
pub open spec fn sorted_items(items: Seq<JsonV>) -> Seq<JsonV>
    decreases items, 0nat,
{
    if items.len() == 0 {
        Seq::empty()
    } else {
        sorted_items(items.subrange(0, items.len() - 1)).push(sorted_json(items[items.len() - 1]))
    }
}

/// Object members put in key order one after the other, each value with its
/// own objects in key order.
pub open spec fn sorted_members(members: Seq<(Seq<char>, JsonV)>) -> Seq<(Seq<char>, JsonV)>
    decreases members, 0nat,
{
    if members.len() == 0 {
        Seq::empty()
    } else {
        let m = members[members.len() - 1];
        insert_entry((m.0, sorted_json(m.1)), sorted_members(members.subrange(0, members.len() - 1)))
    }
}

/// Whether key `a` orders before key `b`.
pub fn key_less(a: &str, b: &str) -> (r: bool)
    ensures
        r == key_lt(a@, b@),
{
    let na = a.unicode_len();
    let nb = b.unicode_len();
    let mut i: usize = 0;
    assert(a@.skip(0) =~= a@);
    assert(b@.skip(0) =~= b@);
    while i < na && i < nb
        invariant
            na == a@.len(),
            nb == b@.len(),
            i <= na,
            i <= nb,
            key_lt(a@, b@) == key_lt(a@.skip(i as int), b@.skip(i as int)),
        decreases na - i,
    {
        let x = a.get_char(i);
        let y = b.get_char(i);
        assert(a@.skip(i as int)[0] == x);
        assert(b@.skip(i as int)[0] == y);
        if x != y {
            return x < y;
        }
        assert(a@.skip(i as int).drop_first() =~= a@.skip(i + 1));
        assert(b@.skip(i as int).drop_first() =~= b@.skip(i + 1));
        i = i + 1;
    }
    i == na && i < nb
}

proof fn lemma_view_members_index(ms: Seq<(String, JsonOut)>)
    ensures
        view_members(ms).len() == ms.len(),
        forall|i: int| 0 <= i < ms.len() ==> #[trigger] view_members(ms)[i] == (ms[i].0@, ms[i].1@),
    decreases ms.len(),
{
    if ms.len() > 0 {
        lemma_view_members_index(ms.subrange(0, ms.len() - 1));
    }
}

/// Where `insert_entry` puts `m`, given the first position `p` whose key
/// does not order before `m`'s.
pub(crate) proof fn lemma_insert_at<V>(m: (Seq<char>, V), s: Seq<(Seq<char>, V)>, p: int)
    requires
        0 <= p <= s.len(),
        forall|j: int| 0 <= j < p ==> key_lt(#[trigger] s[j].0, m.0),
        p < s.len() ==> !key_lt(s[p].0, m.0),
    ensures
        insert_entry(m, s) == if p < s.len() && s[p].0 == m.0 {
            s.update(p, m)
        } else {
            s.insert(p, m)
        },
    decreases p,
{
    if p == 0 {
        if s.len() == 0 {
            assert(seq![m] =~= s.insert(0, m));
        } else if s[0].0 == m.0 {
            assert(seq![m] + s.drop_first() =~= s.update(0, m));
        } else {
            assert(seq![m] + s =~= s.insert(0, m));
        }
    } else {
        let t = s.drop_first();
        assert(key_lt(s[0].0, m.0));
        assert forall|j: int| 0 <= j < p - 1 implies key_lt(#[trigger] t[j].0, m.0) by {
            assert(t[j] == s[j + 1]);
        }
        lemma_insert_at(m, t, p - 1);
        if p < s.len() && s[p].0 == m.0 {
            assert(seq![s[0]] + t.update(p - 1, m) =~= s.update(p, m));
        } else {
            assert(seq![s[0]] + t.insert(p - 1, m) =~= s.insert(p, m));
        }
    }
}

/// Put `key` and `value` into members held in key order.
fn insert_sorted(sorted: &mut Vec<(String, JsonOut)>, key: String, value: JsonOut)
    ensures
        view_members(final(sorted)@) == insert_entry((key@, value@), view_members(old(sorted)@)),
{
    let ghost s = view_members(sorted@);
    proof {
        lemma_view_members_index(sorted@);
    }
    let n = sorted.len();
    let mut p: usize = 0;
    loop
        invariant_except_break
            p <= n,
            n == sorted@.len(),
            s == view_members(sorted@),
            s.len() == n,
            forall|i: int| 0 <= i < n ==> #[trigger] s[i] == (sorted@[i].0@, sorted@[i].1@),
            forall|j: int| 0 <= j < p ==> key_lt(#[trigger] s[j].0, key@),
        ensures
            p <= n,
            n == sorted@.len(),
            s == view_members(sorted@),
            s.len() == n,
            forall|i: int| 0 <= i < n ==> #[trigger] s[i] == (sorted@[i].0@, sorted@[i].1@),
            forall|j: int| 0 <= j < p ==> key_lt(#[trigger] s[j].0, key@),
            p < n ==> !key_lt(s[p as int].0, key@),
        decreases n - p,
    {
        if p == n {
            break;
        }
        if !key_less(sorted[p].0.as_str(), key.as_str()) {
            break;
        }
        p = p + 1;
    }
    let ghost m = (key@, value@);
    proof {
        lemma_insert_at(m, s, p as int);
    }
    let same = p < n && crate::text::str_eq(sorted[p].0.as_str(), key.as_str());
    if same {
        sorted.set(p, (key, value));
        proof {
            lemma_view_members_index(sorted@);
            assert(view_members(sorted@) =~= s.update(p as int, m));
        }
    } else {
        sorted.insert(p, (key, value));
        proof {
            lemma_view_members_index(sorted@);
            assert(view_members(sorted@) =~= s.insert(p as int, m));
        }
    }
}

/// Put `key` and `value` into string pairs held in key order.
fn insert_pair_sorted(sorted: &mut Vec<(String, String)>, key: String, value: String)
    ensures
        pair_views(final(sorted)@) == insert_entry((key@, value@), pair_views(old(sorted)@)),
{
    let ghost s = pair_views(sorted@);
    let n = sorted.len();
    let mut p: usize = 0;
    loop
        invariant_except_break
            p <= n,
            n == sorted@.len(),
            s == pair_views(sorted@),
            forall|j: int| 0 <= j < p ==> key_lt(#[trigger] s[j].0, key@),
        ensures
            p <= n,
            n == sorted@.len(),
            s == pair_views(sorted@),
            forall|j: int| 0 <= j < p ==> key_lt(#[trigger] s[j].0, key@),
            p < n ==> !key_lt(s[p as int].0, key@),
        decreases n - p,
    {
        if p == n {
            break;
        }
        if !key_less(sorted[p].0.as_str(), key.as_str()) {
            break;
        }
        p = p + 1;
    }
    let ghost m = (key@, value@);
    proof {
        lemma_insert_at(m, s, p as int);
    }
    let same = p < n && crate::text::str_eq(sorted[p].0.as_str(), key.as_str());
    if same {
        sorted.set(p, (key, value));
        assert(pair_views(sorted@) =~= s.update(p as int, m));
    } else {
        sorted.insert(p, (key, value));
        assert(pair_views(sorted@) =~= s.insert(p as int, m));
    }
}

/// String pairs in key order as a string-keyed ordered map collects them:
/// each key once, its last value kept.
pub fn pairs_in_key_order(pairs: &Vec<(String, String)>) -> (r: Vec<(String, String)>)
    ensures
        pair_views(r@) == entries_in_key_order(pair_views(pairs@)),
{
    let ghost x = pair_views(pairs@);
    let mut out: Vec<(String, String)> = Vec::new();
    let mut i: usize = 0;
    assert(x.take(0) =~= Seq::<(Seq<char>, Seq<char>)>::empty());
    assert(pair_views(out@) =~= Seq::<(Seq<char>, Seq<char>)>::empty());
    while i < pairs.len()
        invariant
            i <= pairs@.len(),
            x == pair_views(pairs@),
            pair_views(out@) == entries_in_key_order(x.take(i as int)),
        decreases pairs@.len() - i,
    {
        proof {
            assert(x.take(i + 1).drop_last() =~= x.take(i as int));
            assert(x.take(i + 1).last() == (pairs@[i as int].0@, pairs@[i as int].1@));
        }
        let key = pairs[i].0.clone();
        let value = pairs[i].1.clone();
        insert_pair_sorted(&mut out, key, value);
        i = i + 1;
    }
    assert(x.take(x.len() as int) =~= x);
    out
}

/// A copy of `v` with every object's members in key order, at every depth.
pub fn sorted_copy(v: &JsonOut) -> (r: JsonOut)
    ensures
        r@ == sorted_json(v@),
    decreases *v,
{
    match v {
        JsonOut::Null => JsonOut::Null,
        JsonOut::Bool(b) => JsonOut::Bool(*b),
        JsonOut::Number(n) => JsonOut::Number(n.clone()),
        JsonOut::Str(s) => JsonOut::Str(s.clone()),
        JsonOut::Raw(t) => JsonOut::Raw(t.clone()),
        JsonOut::Array(items) => {
            let mut out: Vec<JsonOut> = Vec::new();
            let mut i: usize = 0;
            while i < items.len()
                invariant
                    i <= items@.len(),
                    *v == JsonOut::Array(*items),
                    out@.len() == i,
                    view_items(out@) == sorted_items(view_items(items@.subrange(0, i as int))),
                decreases items@.len() - i,
            {
                proof {
                    assert(decreases_to!(*v => (*v)->Array_0));
                    assert(decreases_to!(*items => items@));
                    assert(decreases_to!(items@ => items@[i as int]));
                }
                let x = sorted_copy(&items[i]);
                proof {
                    let w = view_items(items@.subrange(0, i + 1));
                    assert(items@.subrange(0, i + 1).subrange(0, i as int) == items@.subrange(0, i as int));
                    assert(w == view_items(items@.subrange(0, i as int)).push(items@[i as int]@));
                    assert(w.subrange(0, w.len() - 1) == view_items(items@.subrange(0, i as int)));
                    assert(out@.push(x).subrange(0, i as int) == out@);
                }
                out.push(x);
                i = i + 1;
            }
            assert(items@.subrange(0, items@.len() as int) == items@);
            JsonOut::Array(out)
        },
        JsonOut::Object(members) => {
            let mut out: Vec<(String, JsonOut)> = Vec::new();
            let mut i: usize = 0;
            while i < members.len()
                invariant
                    i <= members@.len(),
                    *v == JsonOut::Object(*members),
                    view_members(out@) == sorted_members(view_members(members@.subrange(0, i as int))),
                decreases members@.len() - i,
            {
                proof {
                    assert(decreases_to!(*v => (*v)->Object_0));
                    assert(decreases_to!(*members => members@));
                    assert(decreases_to!(members@ => members@[i as int]));
                    assert(decreases_to!(members@[i as int] => members@[i as int].1));
                }
                let x = sorted_copy(&members[i].1);
                let key = members[i].0.clone();
                proof {
                    let w = view_members(members@.subrange(0, i + 1));
                    assert(members@.subrange(0, i + 1).subrange(0, i as int) == members@.subrange(0, i as int));
                    assert(w == view_members(members@.subrange(0, i as int)).push(
                        (members@[i as int].0@, members@[i as int].1@),
                    ));
                    assert(w.subrange(0, w.len() - 1) == view_members(members@.subrange(0, i as int)));
                }
                insert_sorted(&mut out, key, x);
                i = i + 1;
            }
            assert(members@.subrange(0, members@.len() as int) == members@);
            JsonOut::Object(out)
        },
    }
}

/// Keys stand in strictly increasing order.
pub open spec fn keys_strictly_ordered<V>(entries: Seq<(Seq<char>, V)>) -> bool {
    forall|i: int, j: int| 0 <= i < j < entries.len() ==> key_lt(#[trigger] entries[i].0, #[trigger] entries[j].0)
}

/// Entries whose keys already stand in strictly increasing order are their
/// own key order.
pub proof fn lemma_ordered_entries_in_key_order<V>(entries: Seq<(Seq<char>, V)>)
    requires
        keys_strictly_ordered(entries),
    ensures
        entries_in_key_order(entries) == entries,
    decreases entries.len(),
{
    if entries.len() > 0 {
        let init = entries.drop_last();
        let m = entries.last();
        assert(keys_strictly_ordered(init)) by {
            assert forall|i: int, j: int| 0 <= i < j < init.len() implies key_lt(
                #[trigger] init[i].0,
                #[trigger] init[j].0,
            ) by {
                assert(init[i] == entries[i] && init[j] == entries[j]);
            }
        }
        lemma_ordered_entries_in_key_order(init);
        assert forall|j: int| 0 <= j < init.len() implies key_lt(#[trigger] init[j].0, m.0) by {
            assert(init[j] == entries[j]);
            assert(key_lt(entries[j].0, entries[entries.len() - 1].0));
        }
        lemma_insert_at(m, init, init.len() as int);
        assert(init.insert(init.len() as int, m) =~= entries);
    }
}

proof fn lemma_key_lt_irreflexive(a: Seq<char>)
    ensures
        !key_lt(a, a),
    decreases a.len(),
{
    if a.len() > 0 {
        lemma_key_lt_irreflexive(a.drop_first());
    }
}

proof fn lemma_key_lt_transitive(a: Seq<char>, b: Seq<char>, c: Seq<char>)
    requires
        key_lt(a, b),
        key_lt(b, c),
    ensures
        key_lt(a, c),
    decreases a.len(),
{
    if a.len() > 0 && b.len() > 0 && c.len() > 0 && a[0] == b[0] && b[0] == c[0] {
        lemma_key_lt_transitive(a.drop_first(), b.drop_first(), c.drop_first());
    }
}

proof fn lemma_key_lt_total(a: Seq<char>, b: Seq<char>)
    requires
        a != b,
    ensures
        key_lt(a, b) || key_lt(b, a),
    decreases a.len(),
{
    if a.len() == 0 && b.len() == 0 {
        assert(a =~= b);
    } else if a.len() > 0 && b.len() > 0 && a[0] == b[0] {
        if a.drop_first() == b.drop_first() {
            assert(a =~= seq![a[0]] + a.drop_first());
            assert(b =~= seq![b[0]] + b.drop_first());
        }
        lemma_key_lt_total(a.drop_first(), b.drop_first());
    }
}

/// A key below `m`'s and below every key of `s` stays below every key once
/// `m` is put in.
proof fn lemma_insert_lower_bound<V>(m: (Seq<char>, V), s: Seq<(Seq<char>, V)>, x: Seq<char>)
    requires
        key_lt(x, m.0),
        forall|j: int| 0 <= j < s.len() ==> key_lt(x, #[trigger] s[j].0),
    ensures
        forall|i: int| 0 <= i < insert_entry(m, s).len() ==> key_lt(x, #[trigger] insert_entry(m, s)[i].0),
    decreases s.len(),
{
    if s.len() > 0 && key_lt(s[0].0, m.0) {
        let t = s.drop_first();
        assert forall|j: int| 0 <= j < t.len() implies key_lt(x, #[trigger] t[j].0) by {
            assert(t[j] == s[j + 1]);
        }
        lemma_insert_lower_bound(m, t, x);
        let r = insert_entry(m, s);
        assert forall|i: int| 0 <= i < r.len() implies key_lt(x, #[trigger] r[i].0) by {
            if i > 0 {
                assert(r[i] == insert_entry(m, t)[i - 1]);
            }
        }
    } else if s.len() > 0 && s[0].0 == m.0 {
        let r = insert_entry(m, s);
        assert forall|i: int| 0 <= i < r.len() implies key_lt(x, #[trigger] r[i].0) by {
            if i > 0 {
                assert(r[i] == s[i]);
            }
        }
    } else if s.len() > 0 {
        let r = insert_entry(m, s);
        assert forall|i: int| 0 <= i < r.len() implies key_lt(x, #[trigger] r[i].0) by {
            if i > 0 {
                assert(r[i] == s[i - 1]);
            }
        }
    }
}

/// Putting an entry in keeps the keys strictly ordered.
proof fn lemma_insert_keeps_order<V>(m: (Seq<char>, V), s: Seq<(Seq<char>, V)>)
    requires
        keys_strictly_ordered(s),
    ensures
        keys_strictly_ordered(insert_entry(m, s)),
    decreases s.len(),
{
    let r = insert_entry(m, s);
    if s.len() == 0 {
    } else if key_lt(s[0].0, m.0) {
        let t = s.drop_first();
        assert forall|i: int, j: int| 0 <= i < j < t.len() implies key_lt(#[trigger] t[i].0, #[trigger] t[j].0) by {
            assert(t[i] == s[i + 1] && t[j] == s[j + 1]);
        }
        lemma_insert_keeps_order(m, t);
        assert forall|j: int| 0 <= j < t.len() implies key_lt(s[0].0, #[trigger] t[j].0) by {
            assert(t[j] == s[j + 1]);
        }
        lemma_insert_lower_bound(m, t, s[0].0);
        assert forall|i: int, j: int| 0 <= i < j < r.len() implies key_lt(#[trigger] r[i].0, #[trigger] r[j].0) by {
            assert(r[j] == insert_entry(m, t)[j - 1]);
            if i > 0 {
                assert(r[i] == insert_entry(m, t)[i - 1]);
            }
        }
    } else if s[0].0 == m.0 {
        assert forall|i: int, j: int| 0 <= i < j < r.len() implies key_lt(#[trigger] r[i].0, #[trigger] r[j].0) by {
            assert(r[j] == s[j]);
            if i > 0 {
                assert(r[i] == s[i]);
            }
        }
    } else {
        lemma_key_lt_total(m.0, s[0].0);
        assert forall|i: int, j: int| 0 <= i < j < r.len() implies key_lt(#[trigger] r[i].0, #[trigger] r[j].0) by {
            assert(r[j] == s[j - 1]);
            if i > 0 {
                assert(r[i] == s[i - 1]);
            } else if j > 1 {
                lemma_key_lt_transitive(m.0, s[0].0, s[j - 1].0);
            }
        }
    }
}

/// Entries put in key order hold strictly increasing keys: no key is written
/// twice, and each comes before every larger one.
pub proof fn law_entries_in_key_order_are_strictly_ordered<V>(entries: Seq<(Seq<char>, V)>)
    ensures
        keys_strictly_ordered(entries_in_key_order(entries)),
    decreases entries.len(),
{
    if entries.len() > 0 {
        law_entries_in_key_order_are_strictly_ordered(entries.drop_last());
        lemma_insert_keeps_order(entries.last(), entries_in_key_order(entries.drop_last()));
    }
}

/// The members of every object the sorting writes hold strictly increasing
/// keys.
pub proof fn law_sorted_members_are_strictly_ordered(members: Seq<(Seq<char>, JsonV)>)
    ensures
        keys_strictly_ordered(sorted_members(members)),
    decreases members.len(),
{
    if members.len() > 0 {
        let init = members.subrange(0, members.len() - 1);
        let m = members[members.len() - 1];
        law_sorted_members_are_strictly_ordered(init);
        lemma_insert_keeps_order((m.0, sorted_json(m.1)), sorted_members(init));
    }
}

/// The keys of entries, in order.
pub open spec fn entry_keys<V>(entries: Seq<(Seq<char>, V)>) -> Seq<Seq<char>> {
    entries.map_values(|e: (Seq<char>, V)| e.0)
}

/// Putting an entry in adds its key and keeps every other key.
proof fn lemma_insert_keys<V>(m: (Seq<char>, V), s: Seq<(Seq<char>, V)>)
    ensures
        forall|k: Seq<char>|
            #![trigger entry_keys(insert_entry(m, s)).contains(k)]
            #![trigger entry_keys(s).contains(k)]
            entry_keys(insert_entry(m, s)).contains(k) <==> (k == m.0 || entry_keys(s).contains(k)),
    decreases s.len(),
{
    let r = insert_entry(m, s);
    if s.len() == 0 {
        assert(entry_keys(r) =~= seq![m.0]);
        assert forall|k: Seq<char>| entry_keys(r).contains(k) <==> (k == m.0 || entry_keys(s).contains(k)) by {
            if k == m.0 {
                assert(entry_keys(r)[0] == k);
            }
        }
    } else if key_lt(s[0].0, m.0) {
        let t = s.drop_first();
        lemma_insert_keys(m, t);
        assert(entry_keys(r) =~= seq![s[0].0] + entry_keys(insert_entry(m, t)));
        assert(entry_keys(s) =~= seq![s[0].0] + entry_keys(t));
        assert forall|k: Seq<char>| entry_keys(r).contains(k) <==> (k == m.0 || entry_keys(s).contains(k)) by {
            if entry_keys(r).contains(k) {
                let i = choose|i: int| 0 <= i < entry_keys(r).len() && entry_keys(r)[i] == k;
                if i > 0 {
                    assert(entry_keys(insert_entry(m, t))[i - 1] == k);
                    assert(entry_keys(insert_entry(m, t)).contains(k));
                    if k != m.0 {
                        assert(entry_keys(t).contains(k));
                        let j = choose|j: int| 0 <= j < entry_keys(t).len() && entry_keys(t)[j] == k;
                        assert(entry_keys(s)[j + 1] == k);
                    }
                } else {
                    assert(entry_keys(s)[0] == k);
                }
            }
            if k == m.0 {
                assert(entry_keys(insert_entry(m, t)).contains(k));
                let i = choose|i: int| 0 <= i < entry_keys(insert_entry(m, t)).len() && entry_keys(insert_entry(m, t))[i] == k;
                assert(entry_keys(r)[i + 1] == k);
            } else if entry_keys(s).contains(k) {
                let j = choose|j: int| 0 <= j < entry_keys(s).len() && entry_keys(s)[j] == k;
                if j == 0 {
                    assert(entry_keys(r)[0] == k);
                } else {
                    assert(entry_keys(t)[j - 1] == k);
                    assert(entry_keys(insert_entry(m, t)).contains(k));
                    let i = choose|i: int| 0 <= i < entry_keys(insert_entry(m, t)).len() && entry_keys(insert_entry(m, t))[i] == k;
                    assert(entry_keys(r)[i + 1] == k);
                }
            }
        }
    } else if s[0].0 == m.0 {
        assert(entry_keys(r) =~= entry_keys(s));
        assert forall|k: Seq<char>| entry_keys(r).contains(k) <==> (k == m.0 || entry_keys(s).contains(k)) by {
            if k == m.0 {
                assert(entry_keys(s)[0] == k);
            }
        }
    } else {
        assert(entry_keys(r) =~= seq![m.0] + entry_keys(s));
        assert forall|k: Seq<char>| entry_keys(r).contains(k) <==> (k == m.0 || entry_keys(s).contains(k)) by {
            if entry_keys(r).contains(k) {
                let i = choose|i: int| 0 <= i < entry_keys(r).len() && entry_keys(r)[i] == k;
                if i > 0 {
                    assert(entry_keys(s)[i - 1] == k);
                }
            }
            if k == m.0 {
                assert(entry_keys(r)[0] == k);
            } else if entry_keys(s).contains(k) {
                let j = choose|j: int| 0 <= j < entry_keys(s).len() && entry_keys(s)[j] == k;
                assert(entry_keys(r)[j + 1] == k);
            }
        }
    }
}

/// Entries put in key order keep every key they were given, and no other.
pub proof fn law_entries_in_key_order_keep_keys<V>(entries: Seq<(Seq<char>, V)>)
    ensures
        forall|k: Seq<char>|
            #![trigger entry_keys(entries_in_key_order(entries)).contains(k)]
            #![trigger entry_keys(entries).contains(k)]
            entry_keys(entries_in_key_order(entries)).contains(k) <==> entry_keys(entries).contains(k),
    decreases entries.len(),
{
    if entries.len() > 0 {
        let init = entries.drop_last();
        law_entries_in_key_order_keep_keys(init);
        lemma_insert_keys(entries.last(), entries_in_key_order(init));
        assert(entry_keys(entries) =~= entry_keys(init).push(entries.last().0));
        assert forall|k: Seq<char>| entry_keys(entries).contains(k) <==> (k == entries.last().0 || entry_keys(init).contains(k)) by {
            if entry_keys(entries).contains(k) {
                let i = choose|i: int| 0 <= i < entry_keys(entries).len() && entry_keys(entries)[i] == k;
                if i < init.len() {
                    assert(entry_keys(init)[i] == k);
                }
            }
            if entry_keys(init).contains(k) {
                let j = choose|j: int| 0 <= j < entry_keys(init).len() && entry_keys(init)[j] == k;
                assert(entry_keys(entries)[j] == k);
            }
            if k == entries.last().0 {
                assert(entry_keys(entries)[entries.len() - 1] == k);
            }
        }
    }
}

/// The objects the sorting writes keep every member key they were given,
/// and no other.
pub proof fn law_sorted_members_keep_keys(members: Seq<(Seq<char>, JsonV)>)
    ensures
        forall|k: Seq<char>|
            #![trigger entry_keys(sorted_members(members)).contains(k)]
            #![trigger entry_keys(members).contains(k)]
            entry_keys(sorted_members(members)).contains(k) <==> entry_keys(members).contains(k),
    decreases members.len(),
{
    if members.len() > 0 {
        let init = members.subrange(0, members.len() - 1);
        let m = members[members.len() - 1];
        law_sorted_members_keep_keys(init);
        lemma_insert_keys((m.0, sorted_json(m.1)), sorted_members(init));
        assert(entry_keys(members) =~= entry_keys(init).push(m.0));
        assert forall|k: Seq<char>| entry_keys(members).contains(k) <==> (k == m.0 || entry_keys(init).contains(k)) by {
            if entry_keys(members).contains(k) {
                let i = choose|i: int| 0 <= i < entry_keys(members).len() && entry_keys(members)[i] == k;
                if i < init.len() {
                    assert(entry_keys(init)[i] == k);
                }
            }
            if entry_keys(init).contains(k) {
                let j = choose|j: int| 0 <= j < entry_keys(init).len() && entry_keys(init)[j] == k;
                assert(entry_keys(members)[j] == k);
            }
            if k == m.0 {
                assert(entry_keys(members)[members.len() - 1] == k);
            }
        }
    }
}

} // verus!
