//! Static closure blockers: lifecycle scripts and dependency declarations
//! that refuse execution before any package code can run.

use vstd::prelude::*;
use crate::closure::{ClosureDecision, DependencyDeclaration, LifecycleScript, M2Reason};
use crate::evidence::{pair_views, ExtractedDependencyDeclaration, ExtractedPackageMetadata};
use crate::json_sort::{entries_in_key_order, pairs_in_key_order};

verus! {

/// Static blocker assessment for an execute candidate.
#[derive(Clone, Debug, PartialEq, Eq)]
pub struct ClosureBlockerAssessment {
    /// Decision implied by static metadata blockers.
    pub decision: ClosureDecision,
    /// Stable reasons supporting the decision.
    pub reasons: Vec<M2Reason>,
    /// Lifecycle scripts detected in root metadata.
    pub lifecycle_scripts: Vec<LifecycleScript>,
    /// Dependency declarations recorded from root metadata.
    pub dependency_declarations: Vec<DependencyDeclaration>,
    /// Dependency declarations that block execution.
    pub blocking_dependency_declarations: Vec<DependencyDeclaration>,
}

/// The lifecycle scripts as the package's `scripts` map holds them: each
/// name once, in key order, its last command kept.
pub open spec fn script_entries(metadata: ExtractedPackageMetadata) -> Seq<(Seq<char>, Seq<char>)> {
    entries_in_key_order(pair_views(metadata.lifecycle_scripts@))
}

/// A lifecycle script as a (name, command) pair.
pub open spec fn script_view(s: LifecycleScript) -> (Seq<char>, Seq<char>) {
    (s.name@, s.command@)
}

pub open spec fn declaration_of(d: ExtractedDependencyDeclaration) -> DependencyDeclaration {
    DependencyDeclaration { name: d.name, requirement: d.requirement, kind: d.kind }
}

pub open spec fn is_blocking(d: DependencyDeclaration) -> bool {
    d.kind.blocks_closure()
}

/// Reasons for a given blocker situation.
pub open spec fn blocker_reasons(has_scripts: bool, has_blocking: bool) -> Seq<M2Reason> {
    if !has_scripts && !has_blocking {
        seq![M2Reason::InteractiveApprovalRequired]
    } else {
        (if has_scripts {
            seq![M2Reason::LifecycleScriptPresent]
        } else {
            Seq::empty()
        }) + (if has_blocking {
            seq![M2Reason::UnsupportedClosure]
        } else {
            Seq::empty()
        })
    }
}

impl ClosureBlockerAssessment {
    /// The assessment carries no execution blocker.
    pub open spec fn clear_model(&self) -> bool {
        &&& self.decision == ClosureDecision::Ask
        &&& self.reasons@ == seq![M2Reason::InteractiveApprovalRequired]
        &&& self.lifecycle_scripts@.len() == 0
        &&& self.blocking_dependency_declarations@.len() == 0
    }

    /// Return true when static metadata contains no execution blockers.
    pub fn is_clear(&self) -> (r: bool)
        ensures
            r == self.clear_model(),
    {
        let single = self.reasons.len() == 1 && self.reasons[0]
            == M2Reason::InteractiveApprovalRequired;
        assert(single <==> self.reasons@ == seq![M2Reason::InteractiveApprovalRequired]) by {
            if self.reasons@.len() == 1 {
                assert(self.reasons@ == seq![self.reasons@[0]]);
            }
        }
        self.decision == ClosureDecision::Ask && single && self.lifecycle_scripts.len() == 0
            && self.blocking_dependency_declarations.len() == 0
    }
}

fn declaration_from(e: &ExtractedDependencyDeclaration) -> (d: DependencyDeclaration)
    ensures
        d == declaration_of(*e),
{
    DependencyDeclaration { name: e.name.clone(), requirement: e.requirement.clone(), kind: e.kind }
}

/// Assess lifecycle scripts and dependency declarations as closure blockers.
pub fn assess_static_closure_blockers(metadata: &ExtractedPackageMetadata) -> (r:
    ClosureBlockerAssessment)
    ensures
        r.lifecycle_scripts@.map_values(|s: LifecycleScript| script_view(s)) == script_entries(*metadata),
        r.dependency_declarations@ == metadata.dependency_declarations@.map_values(
            |d: ExtractedDependencyDeclaration| declaration_of(d),
        ),
        r.blocking_dependency_declarations@ == r.dependency_declarations@.filter(
            |x: DependencyDeclaration| is_blocking(x),
        ),
        r.reasons@ == blocker_reasons(
            r.lifecycle_scripts@.len() > 0,
            r.blocking_dependency_declarations@.len() > 0,
        ),
        r.decision == if r.lifecycle_scripts@.len() == 0
            && r.blocking_dependency_declarations@.len() == 0 {
            ClosureDecision::Ask
        } else {
            ClosureDecision::ExecutionRefused
        },
{
    let scripts = pairs_in_key_order(&metadata.lifecycle_scripts);
    let ghost e = script_entries(*metadata);
    let mut lifecycle_scripts: Vec<LifecycleScript> = Vec::new();
    let mut i: usize = 0;
    while i < scripts.len()
        invariant
            i <= scripts@.len(),
            e == pair_views(scripts@),
            lifecycle_scripts@.map_values(|s: LifecycleScript| script_view(s)) == e.take(i as int),
        decreases scripts@.len() - i,
    {
        let name = scripts[i].0.clone();
        let command = scripts[i].1.clone();
        let ghost before = lifecycle_scripts@;
        lifecycle_scripts.push(LifecycleScript { name, command });
        proof {
            assert(e[i as int] == (scripts@[i as int].0@, scripts@[i as int].1@));
            assert(e.take(i + 1) =~= e.take(i as int).push(e[i as int]));
            assert(lifecycle_scripts@.map_values(|s: LifecycleScript| script_view(s)) =~= before.map_values(
                |s: LifecycleScript| script_view(s),
            ).push(e[i as int]));
        }
        i = i + 1;
    }
    assert(e.take(e.len() as int) == e);
    let decls = &metadata.dependency_declarations;
    let mut dependency_declarations: Vec<DependencyDeclaration> = Vec::new();
    let mut blocking: Vec<DependencyDeclaration> = Vec::new();
    let mut j: usize = 0;
    while j < decls.len()
        invariant
            j <= decls@.len(),
            dependency_declarations@ == decls@.subrange(0, j as int).map_values(
                |d: ExtractedDependencyDeclaration| declaration_of(d),
            ),
            blocking@ == dependency_declarations@.filter(|x: DependencyDeclaration| is_blocking(x)),
        decreases decls@.len() - j,
    {
        let d = declaration_from(&decls[j]);
        let ghost before = dependency_declarations@;
        if d.kind.requires_m2_dependency_closure() {
            blocking.push(declaration_from(&decls[j]));
        }
        dependency_declarations.push(d);
        proof {
            assert(decls@.subrange(0, j + 1) == decls@.subrange(0, j as int).push(decls@[j as int]));
            assert(dependency_declarations@ =~= decls@.subrange(0, j + 1).map_values(
                |d: ExtractedDependencyDeclaration| declaration_of(d),
            ));
            assert(dependency_declarations@.drop_last() == before);
            assert(dependency_declarations@.last() == d);
            before.lemma_filter_push(d, |x: DependencyDeclaration| is_blocking(x));
            assert(dependency_declarations@.filter(|x: DependencyDeclaration| is_blocking(x))
                == if is_blocking(d) {
                before.filter(|x: DependencyDeclaration| is_blocking(x)).push(d)
            } else {
                before.filter(|x: DependencyDeclaration| is_blocking(x))
            });
        }
        j = j + 1;
    }
    assert(decls@.subrange(0, decls@.len() as int) == decls@);
    let has_scripts = lifecycle_scripts.len() > 0;
    let has_blocking = blocking.len() > 0;
    let mut reasons: Vec<M2Reason> = Vec::new();
    if has_scripts {
        reasons.push(M2Reason::LifecycleScriptPresent);
    }
    if has_blocking {
        reasons.push(M2Reason::UnsupportedClosure);
    }
    if reasons.len() == 0 {
        reasons.push(M2Reason::InteractiveApprovalRequired);
    }
    assert(reasons@ =~= blocker_reasons(has_scripts, has_blocking));
    let decision = if !has_scripts && !has_blocking {
        ClosureDecision::Ask
    } else {
        ClosureDecision::ExecutionRefused
    };
    ClosureBlockerAssessment {
        decision,
        reasons,
        lifecycle_scripts,
        dependency_declarations,
        blocking_dependency_declarations: blocking,
    }
}

/// Static metadata is clear of blockers exactly when it declares no
/// lifecycle script and no dependency that would be installed with it.
pub proof fn law_clear_iff_no_blockers(a: ClosureBlockerAssessment)
    requires
        a.reasons@ == blocker_reasons(
            a.lifecycle_scripts@.len() > 0,
            a.blocking_dependency_declarations@.len() > 0,
        ),
        a.decision == if a.lifecycle_scripts@.len() == 0
            && a.blocking_dependency_declarations@.len() == 0 {
            ClosureDecision::Ask
        } else {
            ClosureDecision::ExecutionRefused
        },
    ensures
        a.clear_model() <==> (a.lifecycle_scripts@.len() == 0
            && a.blocking_dependency_declarations@.len() == 0),
{
}

} // verus!
