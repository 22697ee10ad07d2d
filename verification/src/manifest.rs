//! Line-oriented fixture manifests: one `|`-separated row per line, blank
//! lines and `#` comments skipped.

use vstd::prelude::*;
use crate::text::{
    has_prefix, lines, lines_str, split, split_str, starts_with, trim, trim_str, views,
};

verus! {

/// A line that carries a row: not blank after trimming and not a comment.
pub open spec fn is_manifest_row(line: Seq<char>) -> bool {
    trim(line).len() > 0 && !has_prefix(line, seq!['#'])
}

/// The lines of `ls` that carry rows, in order.
pub open spec fn kept_rows(ls: Seq<Seq<char>>) -> Seq<Seq<char>>
    decreases ls.len(),
{
    if ls.len() == 0 {
        Seq::empty()
    } else {
        let rest = kept_rows(ls.drop_last());
        if is_manifest_row(ls.last()) {
            rest.push(ls.last())
        } else {
            rest
        }
    }
}

/// The rows of a manifest text.
pub open spec fn manifest_rows(manifest: Seq<char>) -> Seq<Seq<char>> {
    kept_rows(lines(manifest))
}

/// The `|`-separated fields of a row.
pub open spec fn row_fields(row: Seq<char>) -> Seq<Seq<char>> {
    split(row, '|')
}

/// The rows of a manifest, in order.
pub fn manifest_rows_str(manifest: &str) -> (r: Vec<&str>)
    ensures
        views(r@) == manifest_rows(manifest@),
{
    let all = lines_str(manifest);
    let mut out: Vec<&str> = Vec::new();
    let mut i: usize = 0;
    while i < all.len()
        invariant
            i <= all@.len(),
            views(all@) == lines(manifest@),
            views(out@) == kept_rows(views(all@).take(i as int)),
        decreases all@.len() - i,
    {
        let line = all[i];
        proof {
            assert(views(all@).take(i + 1).drop_last() == views(all@).take(i as int));
            assert(views(all@).take(i + 1).last() == line@);
        }
        let t = trim_str(line);
        let keep = t.unicode_len() > 0 && !starts_with(line, "#");
        proof {
            reveal_strlit("#");
            assert("#"@ == seq!['#']);
            assert(keep == is_manifest_row(line@));
            assert(kept_rows(views(all@).take(i + 1)) == if is_manifest_row(line@) {
                kept_rows(views(all@).take(i as int)).push(line@)
            } else {
                kept_rows(views(all@).take(i as int))
            });
        }
        if keep {
            proof {
                assert(views(out@.push(line)) == views(out@).push(line@));
            }
            out.push(line);
        }
        i = i + 1;
    }
    assert(views(all@).take(all@.len() as int) == views(all@));
    out
}

/// The fields of a row.
pub fn row_fields_str(row: &str) -> (r: Vec<&str>)
    ensures
        views(r@) == row_fields(row@),
{
    split_str(row, '|')
}

} // verus!
