//! Bundled-dependency declarations in the shapes npm metadata gives them: a
//! flag, a list of names, or a name-to-requirement map.

use vstd::prelude::*;
use crate::evidence::pair_views;
use crate::json_sort::{entries_in_key_order, insert_entry, key_less, key_lt, lemma_insert_at};

verus! {

/// npm bundled dependency declaration shape.
#[derive(Debug, Default)]
pub enum PackageBundledDependencies {
    /// No bundled dependency declaration was present.
    #[default]
    Missing,
    /// Boolean bundled dependency marker.
    Flag(bool),
    /// Bundled package names.
    Names(Vec<String>),
    /// Name-to-requirement entries.
    Entries(Vec<(String, String)>),
}

/// The declarations a bundled-dependency shape stands for, in name order: a
/// set flag is the wildcard `*`, each listed name is `bundled`, and map
/// entries are kept, the last of equal names winning.
pub open spec fn bundled_declarations(b: PackageBundledDependencies) -> Seq<(Seq<char>, Seq<char>)> {
    match b {
        PackageBundledDependencies::Missing => Seq::empty(),
        PackageBundledDependencies::Flag(enabled) => if enabled {
            seq![("*"@, "bundled"@)]
        } else {
            Seq::empty()
        },
        PackageBundledDependencies::Names(names) => entries_in_key_order(
            names@.map_values(|n: String| (n@, "bundled"@)),
        ),
        PackageBundledDependencies::Entries(entries) => entries_in_key_order(pair_views(entries@)),
    }
}

/// Put `key` and `value` into string entries held in key order.
fn insert_sorted_pair(sorted: &mut Vec<(String, String)>, key: String, value: String)
    ensures
        pair_views(final(sorted)@) == insert_entry((key@, value@), pair_views(old(sorted)@)),
{
    let ghost s = pair_views(sorted@);
    let n = sorted.len();
    let mut p: usize = 0;
    loop
        invariant_except_break
            p <= n,
            n == sorted@.len(),
            s == pair_views(sorted@),
            forall|j: int| 0 <= j < p ==> key_lt(#[trigger] s[j].0, key@),
        ensures
            p <= n,
            n == sorted@.len(),
            s == pair_views(sorted@),
            forall|j: int| 0 <= j < p ==> key_lt(#[trigger] s[j].0, key@),
            p < n ==> !key_lt(s[p as int].0, key@),
        decreases n - p,
    {
        if p == n {
            break;
        }
        if !key_less(sorted[p].0.as_str(), key.as_str()) {
            break;
        }
        p = p + 1;
    }
    let ghost m = (key@, value@);
    proof {
        lemma_insert_at(m, s, p as int);
    }
    let same = p < n && crate::text::str_eq(sorted[p].0.as_str(), key.as_str());
    if same {
        sorted.set(p, (key, value));
        assert(pair_views(sorted@) =~= s.update(p as int, m));
    } else {
        sorted.insert(p, (key, value));
        assert(pair_views(sorted@) =~= s.insert(p as int, m));
    }
}

/// Entries collected into name order, the last of equal names winning.
fn collect_in_key_order(entries: &Vec<(String, String)>) -> (r: Vec<(String, String)>)
    ensures
        pair_views(r@) == entries_in_key_order(pair_views(entries@)),
{
    let mut out: Vec<(String, String)> = Vec::new();
    let mut i: usize = 0;
    while i < entries.len()
        invariant
            i <= entries@.len(),
            pair_views(out@) == entries_in_key_order(pair_views(entries@.subrange(0, i as int))),
        decreases entries@.len() - i,
    {
        proof {
            assert(pair_views(entries@.subrange(0, i + 1)).drop_last() =~= pair_views(
                entries@.subrange(0, i as int),
            ));
        }
        insert_sorted_pair(&mut out, entries[i].0.clone(), entries[i].1.clone());
        i = i + 1;
    }
    assert(entries@.subrange(0, entries@.len() as int) == entries@);
    out
}

impl PackageBundledDependencies {
    /// The declarations this shape stands for, in name order.
    pub fn into_declarations(self) -> (r: Vec<(String, String)>)
        ensures
            pair_views(r@) == bundled_declarations(self),
    {
        match self {
            PackageBundledDependencies::Missing => Vec::new(),
            PackageBundledDependencies::Flag(enabled) => {
                if enabled {
                    let r = vec![("*".to_owned(), "bundled".to_owned())];
                    assert(pair_views(r@) =~= seq![("*"@, "bundled"@)]);
                    r
                } else {
                    let r: Vec<(String, String)> = Vec::new();
                    assert(pair_views(r@) =~= Seq::empty());
                    r
                }
            },
            PackageBundledDependencies::Names(names) => {
                let mut entries: Vec<(String, String)> = Vec::new();
                let mut i: usize = 0;
                while i < names.len()
                    invariant
                        i <= names@.len(),
                        pair_views(entries@) == names@.subrange(0, i as int).map_values(
                            |n: String| (n@, "bundled"@),
                        ),
                    decreases names@.len() - i,
                {
                    let entry = (names[i].clone(), "bundled".to_owned());
                    proof {
                        assert(pair_views(entries@.push(entry)) =~= pair_views(entries@).push(
                            (entry.0@, entry.1@),
                        ));
                        assert(names@.subrange(0, i + 1).map_values(|n: String| (n@, "bundled"@))
                            =~= names@.subrange(0, i as int).map_values(|n: String| (n@, "bundled"@)).push(
                            (names@[i as int]@, "bundled"@),
                        ));
                    }
                    entries.push(entry);
                    i = i + 1;
                }
                assert(names@.subrange(0, names@.len() as int) == names@);
                collect_in_key_order(&entries)
            },
            PackageBundledDependencies::Entries(entries) => collect_in_key_order(&entries),
        }
    }
}

} // verus!
