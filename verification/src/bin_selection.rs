//! Deterministic package bin selection from static metadata.

use vstd::prelude::*;
use crate::closure::{ClosureDecision, M2Reason};
use crate::evidence::{pair_views, ExtractedPackageMetadata};
use crate::json_sort::{entries_in_key_order, pairs_in_key_order};
use crate::text::{join, join_strings, string_views};

verus! {

/// Deterministically selected package bin metadata.
#[derive(Clone, Debug, PartialEq, Eq)]
pub struct SelectedPackageBin {
    /// Declared executable command name.
    pub name: String,
    /// Declared path relative to the extracted package root.
    pub relative_path: String,
    /// How the bin was selected.
    pub selection: BinSelectionKind,
}

/// How a package bin candidate was selected.
#[derive(Clone, Copy, Debug, PartialEq, Eq, Structural)]
pub enum BinSelectionKind {
    /// Exactly one package `bin` declaration was present.
    SingleDeclaredBin,
}

/// Static bin-selection failure.
#[derive(Clone, Debug, PartialEq, Eq)]
pub struct BinSelectionError {
    /// Conservative decision for this failure.
    pub decision: ClosureDecision,
    /// Stable refusal reason.
    pub reason: M2Reason,
    /// Deterministic detail.
    pub detail: String,
}

impl BinSelectionError {
    /// Build an ambiguous-bin selection failure.
    pub fn ambiguous(bin_names: Vec<String>) -> (r: Self)
        ensures
            r.reason == M2Reason::AmbiguousBin,
            r.decision == M2Reason::AmbiguousBin.decision_model(),
            r.detail@ == "multiple package bins declared: "@ + join(string_views(bin_names@), ","@),
    {
        let mut detail = "multiple package bins declared: ".to_owned();
        let names = join_strings(&bin_names, ",");
        detail.append(names.as_str());
        BinSelectionError {
            decision: M2Reason::AmbiguousBin.refusal_decision(),
            reason: M2Reason::AmbiguousBin,
            detail,
        }
    }

    /// Build a missing-bin selection failure.
    pub fn missing() -> (r: Self)
        ensures
            r.reason == M2Reason::MissingBin,
            r.decision == M2Reason::MissingBin.decision_model(),
            r.detail@ == "package declares no executable bin"@,
    {
        BinSelectionError {
            decision: M2Reason::MissingBin.refusal_decision(),
            reason: M2Reason::MissingBin,
            detail: "package declares no executable bin".to_owned(),
        }
    }
}

/// The declared bins as the package's `bin` map holds them: each command
/// once, in key order, its last declared path kept.
pub open spec fn bin_entries(metadata: ExtractedPackageMetadata) -> Seq<(Seq<char>, Seq<char>)> {
    entries_in_key_order(pair_views(metadata.bins@))
}

/// Select exactly one package bin from extracted package metadata.
pub fn select_package_bin(metadata: &ExtractedPackageMetadata) -> (r: Result<
    SelectedPackageBin,
    BinSelectionError,
>)
    ensures
        bin_entries(*metadata).len() == 1 <==> r is Ok,
        r matches Ok(s) ==> s.name@ == bin_entries(*metadata)[0].0 && s.relative_path@ == bin_entries(
            *metadata,
        )[0].1 && s.selection == BinSelectionKind::SingleDeclaredBin,
        r matches Err(e) ==> e.decision == ClosureDecision::Unsupported,
        r matches Err(e) ==> (e.reason == M2Reason::MissingBin <==> bin_entries(*metadata).len() == 0),
        r matches Err(e) ==> (e.reason == M2Reason::AmbiguousBin <==> bin_entries(*metadata).len() > 1),
        bin_entries(*metadata).len() > 1 ==> (r matches Err(e) && e.detail@
            == "multiple package bins declared: "@ + join(
            bin_entries(*metadata).map_values(|p: (Seq<char>, Seq<char>)| p.0),
            ","@,
        )),
        bin_entries(*metadata).len() == 0 ==> (r matches Err(e) && e.detail@
            == "package declares no executable bin"@),
{
    let bins = pairs_in_key_order(&metadata.bins);
    let ghost b = bin_entries(*metadata);
    assert(pair_views(bins@) == b);
    if bins.len() == 0 {
        Err(BinSelectionError::missing())
    } else if bins.len() == 1 {
        assert(b[0] == (bins@[0].0@, bins@[0].1@));
        Ok(
            SelectedPackageBin {
                name: bins[0].0.clone(),
                relative_path: bins[0].1.clone(),
                selection: BinSelectionKind::SingleDeclaredBin,
            },
        )
    } else {
        let mut names: Vec<String> = Vec::new();
        let mut i: usize = 0;
        while i < bins.len()
            invariant
                i <= bins@.len(),
                b == pair_views(bins@),
                string_views(names@) == b.subrange(0, i as int).map_values(
                    |p: (Seq<char>, Seq<char>)| p.0,
                ),
            decreases bins@.len() - i,
        {
            let ghost old_names = names@;
            let name = bins[i].0.clone();
            names.push(name);
            proof {
                assert(b[i as int] == (bins@[i as int].0@, bins@[i as int].1@));
                assert(b.subrange(0, i + 1) == b.subrange(0, i as int).push(b[i as int]));
                assert(string_views(names@) =~= string_views(old_names).push(name@));
                assert(string_views(names@) =~= b.subrange(0, i + 1).map_values(
                    |p: (Seq<char>, Seq<char>)| p.0,
                ));
            }
            i = i + 1;
        }
        assert(b.subrange(0, b.len() as int) == b);
        Err(BinSelectionError::ambiguous(names))
    }
}

} // verus!
