//! JSON forms of the inspect model, its authority context and the decision
//! receipt.

use vstd::prelude::*;
use crate::authority_context::{
    AuthorityContext, AuthorityRegistryCategory, AuthorityView, DisplayView, IdentityView,
    RegistryContextView,
};
use crate::inspect_json_schema::{json_decision_name, json_decision_text, json_next_action_name, json_next_action_text};
use crate::inspect_model::{
    heuristic_views, HeuristicView, InspectFacts, InspectModel, InspectRefusalFact,
};
use crate::inspect_receipt::{InspectDecisionReceipt, ReceiptArtifactIdentity};
use crate::json_out::{
    json_str_array, json_usize, opt_str_json, push_item, push_member, str_values, view_items,
    view_members, JsonOut, JsonV,
};
use crate::numbers::{decimal, i32_text, i32_to_decimal};
use crate::report_inspect::{
    actor_name, actor_text, execution_state_name, execution_state_text, heuristic_kind_name,
    heuristic_kind_text, next_action_name, next_action_text, refusal_state_name,
    refusal_state_text, runner_name, runner_text, source_context_name, source_context_text,
};
use crate::report_json::{
    decision_name, decision_text, identity_json, identity_json_model, intent_json,
    intent_json_model, m1_reason_name, m1_reason_text, opt_member, opt_view, push_opt_member,
    registry_evidence_json, registry_evidence_json_model, resolved_json, resolved_json_model,
    static_json, static_json_model,
};
use crate::text::string_views;

verus! {

/// Stable name of a registry category.
pub open spec fn registry_category_text(c: AuthorityRegistryCategory) -> Seq<char> {
    match c {
        AuthorityRegistryCategory::PublicNpm => "public_npm"@,
        AuthorityRegistryCategory::ScopedRegistry => "scoped_registry"@,
        AuthorityRegistryCategory::CustomRegistry => "custom_registry"@,
        AuthorityRegistryCategory::Unknown => "unknown"@,
    }
}

fn registry_category_name(c: AuthorityRegistryCategory) -> (r: &'static str)
    ensures
        r@ == registry_category_text(c),
{
    match c {
        AuthorityRegistryCategory::PublicNpm => "public_npm",
        AuthorityRegistryCategory::ScopedRegistry => "scoped_registry",
        AuthorityRegistryCategory::CustomRegistry => "custom_registry",
        AuthorityRegistryCategory::Unknown => "unknown",
    }
}

/// A member written only when the value is present.
pub open spec fn opt_json_member(key: Seq<char>, o: Option<JsonV>) -> Seq<(Seq<char>, JsonV)> {
    match o {
        Some(v) => seq![(key, v)],
        None => Seq::empty(),
    }
}

/// JSON of a display value.
pub open spec fn display_json_model(d: DisplayView) -> JsonV {
    JsonV::Object(seq![("category"@, JsonV::Str(d.category)), ("display"@, JsonV::Str(d.display))])
}

/// JSON of a registry context.
pub open spec fn registry_context_json_model(r: RegistryContextView) -> JsonV {
    JsonV::Object(
        seq![
            ("category"@, JsonV::Str(registry_category_text(r.category))),
            ("display_url"@, JsonV::Str(r.display_url)),
        ] + opt_member("scope"@, r.scope),
    )
}

/// JSON of authority identity fields.
pub open spec fn authority_identity_json_model(i: IdentityView) -> JsonV {
    JsonV::Object(
        seq![
            ("status"@, JsonV::Str(i.status)),
            ("command_intent_key"@, JsonV::Str(i.command_intent_key)),
            ("cwd_trust_class"@, JsonV::Str(i.cwd_trust_class)),
        ] + opt_member("registry_key"@, i.registry_key),
    )
}

/// JSON of an authority context; absent registry and scope are left out.
pub open spec fn authority_json_model(a: AuthorityView) -> JsonV {
    JsonV::Object(
        seq![
            ("command_intent"@, display_json_model(a.command_intent)),
            ("source_context"@, JsonV::Str(source_context_text(a.source_context))),
            ("runner_context"@, JsonV::Str(runner_text(a.runner_context))),
            ("actor_context"@, JsonV::Str(actor_text(a.actor_context))),
            ("cwd"@, display_json_model(a.cwd)),
        ] + opt_json_member(
            "registry"@,
            match a.registry {
                Some(r) => Some(registry_context_json_model(r)),
                None => None,
            },
        ) + opt_member("package_scope"@, a.package_scope) + seq![
            ("identity"@, authority_identity_json_model(a.identity)),
            ("sandbox_boundary"@, JsonV::Str(a.sandbox_boundary)),
        ],
    )
}

fn display_json(category: &String, display: &String) -> (r: JsonOut)
    ensures
        r@ == display_json_model(DisplayView { category: category@, display: display@ }),
{
    let mut m: Vec<(String, JsonOut)> = Vec::new();
    push_member(&mut m, "category", JsonOut::Str(category.clone()));
    push_member(&mut m, "display", JsonOut::Str(display.clone()));
    assert(view_members(m@) =~= seq![("category"@, JsonV::Str(category@)), ("display"@, JsonV::Str(display@))]);
    JsonOut::Object(m)
}

/// The JSON of an authority context.
pub fn authority_json(a: &AuthorityContext) -> (r: JsonOut)
    ensures
        r@ == authority_json_model(a@),
{
    let mut m: Vec<(String, JsonOut)> = Vec::new();
    push_member(&mut m, "command_intent", display_json(&a.command_intent.category, &a.command_intent.display));
    push_member(&mut m, "source_context", JsonOut::Str(source_context_name(a.source_context).to_owned()));
    push_member(&mut m, "runner_context", JsonOut::Str(runner_name(a.runner_context).to_owned()));
    push_member(&mut m, "actor_context", JsonOut::Str(actor_name(a.actor_context).to_owned()));
    push_member(&mut m, "cwd", display_json(&a.cwd.category, &a.cwd.display));
    let ghost before_registry = view_members(m@);
    match &a.registry {
        Some(r) => {
            let mut rm: Vec<(String, JsonOut)> = Vec::new();
            push_member(&mut rm, "category", JsonOut::Str(registry_category_name(r.category).to_owned()));
            push_member(&mut rm, "display_url", JsonOut::Str(r.display_url.clone()));
            push_opt_member(&mut rm, "scope", &r.scope);
            assert(view_members(rm@) =~= match registry_context_json_model(r@) {
                JsonV::Object(x) => x,
                _ => Seq::empty(),
            });
            push_member(&mut m, "registry", JsonOut::Object(rm));
        },
        None => {},
    }
    push_opt_member(&mut m, "package_scope", &a.package_scope);
    let mut im: Vec<(String, JsonOut)> = Vec::new();
    push_member(&mut im, "status", JsonOut::Str(a.identity.status.to_owned()));
    push_member(&mut im, "command_intent_key", JsonOut::Str(a.identity.command_intent_key.clone()));
    push_member(&mut im, "cwd_trust_class", JsonOut::Str(a.identity.cwd_trust_class.clone()));
    push_opt_member(&mut im, "registry_key", &a.identity.registry_key);
    assert(view_members(im@) =~= match authority_identity_json_model(a@.identity) {
        JsonV::Object(x) => x,
        _ => Seq::empty(),
    });
    push_member(&mut m, "identity", JsonOut::Object(im));
    push_member(&mut m, "sandbox_boundary", JsonOut::Str(a.sandbox_boundary.to_owned()));
    assert(view_members(m@) =~= match authority_json_model(a@) {
        JsonV::Object(x) => x,
        _ => Seq::empty(),
    });
    JsonOut::Object(m)
}

/// JSON of a refusal fact; an absent detail is left out.
pub open spec fn refusal_json_model(f: InspectRefusalFact) -> JsonV {
    JsonV::Object(
        seq![
            ("state"@, JsonV::Str(refusal_state_text(f.state))),
            ("reason"@, JsonV::Str(m1_reason_text(f.reason))),
            ("downloaded"@, JsonV::Bool(f.downloaded)),
        ] + opt_member("detail"@, opt_view(f.detail)),
    )
}

/// JSON of inspect facts; absent facts are left out.
pub open spec fn facts_json_model(f: InspectFacts, home: Option<Seq<char>>) -> JsonV {
    JsonV::Object(
        seq![("command"@, intent_json_model(f.command, home))] + opt_json_member(
            "resolved_package"@,
            match f.resolved_package {
                Some(p) => Some(resolved_json_model(p, home)),
                None => None,
            },
        ) + opt_json_member(
            "registry"@,
            match f.registry {
                Some(e) => Some(registry_evidence_json_model(e, home)),
                None => None,
            },
        ) + opt_json_member(
            "artifact"@,
            match f.artifact {
                Some(a) => Some(identity_json_model(a)),
                None => None,
            },
        ) + opt_json_member(
            "root_package"@,
            match f.root_package {
                Some(se) => Some(static_json_model(se)),
                None => None,
            },
        ) + opt_json_member(
            "refusal"@,
            match f.refusal {
                Some(x) => Some(refusal_json_model(x)),
                None => None,
            },
        ),
    )
}

fn refusal_json(f: &InspectRefusalFact) -> (r: JsonOut)
    ensures
        r@ == refusal_json_model(*f),
{
    let mut m: Vec<(String, JsonOut)> = Vec::new();
    push_member(&mut m, "state", JsonOut::Str(refusal_state_name(f.state).to_owned()));
    push_member(&mut m, "reason", JsonOut::Str(m1_reason_name(&f.reason).to_owned()));
    push_member(&mut m, "downloaded", JsonOut::Bool(f.downloaded));
    push_opt_member(&mut m, "detail", &f.detail);
    assert(view_members(m@) =~= match refusal_json_model(*f) {
        JsonV::Object(x) => x,
        _ => Seq::empty(),
    });
    JsonOut::Object(m)
}

/// The JSON of inspect facts.
pub fn facts_json(f: &InspectFacts, home: Option<&str>) -> (r: JsonOut)
    ensures
        r@ == facts_json_model(*f, crate::redaction::opt_view(home)),
{
    let mut m: Vec<(String, JsonOut)> = Vec::new();
    push_member(&mut m, "command", intent_json(&f.command, home));
    let ghost s0 = view_members(m@);
    if let Some(p) = &f.resolved_package {
        push_member(&mut m, "resolved_package", resolved_json(p, home));
    }
    let ghost s1 = view_members(m@);
    assert(s1 =~= s0 + opt_json_member(
        "resolved_package"@,
        match f.resolved_package {
            Some(p) => Some(resolved_json_model(p, crate::redaction::opt_view(home))),
            None => None,
        },
    ));
    if let Some(e) = &f.registry {
        push_member(&mut m, "registry", registry_evidence_json(e, home));
    }
    let ghost s2 = view_members(m@);
    assert(s2 =~= s1 + opt_json_member(
        "registry"@,
        match f.registry {
            Some(e) => Some(registry_evidence_json_model(e, crate::redaction::opt_view(home))),
            None => None,
        },
    ));
    if let Some(a) = &f.artifact {
        push_member(&mut m, "artifact", identity_json(a));
    }
    let ghost s3 = view_members(m@);
    assert(s3 =~= s2 + opt_json_member(
        "artifact"@,
        match f.artifact {
            Some(a) => Some(identity_json_model(a)),
            None => None,
        },
    ));
    if let Some(se) = &f.root_package {
        push_member(&mut m, "root_package", static_json(se));
    }
    let ghost s4 = view_members(m@);
    assert(s4 =~= s3 + opt_json_member(
        "root_package"@,
        match f.root_package {
            Some(se) => Some(static_json_model(se)),
            None => None,
        },
    ));
    if let Some(x) = &f.refusal {
        push_member(&mut m, "refusal", refusal_json(x));
    }
    let ghost s5 = view_members(m@);
    assert(s5 =~= s4 + opt_json_member(
        "refusal"@,
        match f.refusal {
            Some(x) => Some(refusal_json_model(x)),
            None => None,
        },
    ));
    assert(view_members(m@) =~= match facts_json_model(*f, crate::redaction::opt_view(home)) {
        JsonV::Object(x) => x,
        _ => Seq::empty(),
    });
    JsonOut::Object(m)
}

/// JSON of a heuristic.
pub open spec fn heuristic_json_model(h: HeuristicView) -> JsonV {
    JsonV::Object(
        seq![
            ("kind"@, JsonV::Str(heuristic_kind_text(h.kind))),
            ("source"@, JsonV::Str(h.source)),
            ("message"@, JsonV::Str(h.message)),
            ("report_only"@, JsonV::Bool(h.report_only)),
        ],
    )
}

/// JSON of heuristics, in order.
pub open spec fn heuristics_json_model(hs: Seq<HeuristicView>) -> Seq<JsonV> {
    hs.map_values(|h: HeuristicView| heuristic_json_model(h))
}

/// The JSON array of a model's heuristics.
pub fn heuristics_json(model: &InspectModel) -> (r: JsonOut)
    ensures
        r@ == JsonV::Array(heuristics_json_model(heuristic_views(model.heuristics@))),
{
    let ghost hs = heuristic_views(model.heuristics@);
    let mut items: Vec<JsonOut> = Vec::new();
    let mut i: usize = 0;
    while i < model.heuristics.len()
        invariant
            i <= model.heuristics@.len(),
            hs == heuristic_views(model.heuristics@),
            view_items(items@) == heuristics_json_model(hs.subrange(0, i as int)),
        decreases model.heuristics@.len() - i,
    {
        let h = &model.heuristics[i];
        let mut m: Vec<(String, JsonOut)> = Vec::new();
        push_member(&mut m, "kind", JsonOut::Str(heuristic_kind_name(h.kind).to_owned()));
        push_member(&mut m, "source", JsonOut::Str(h.source.to_owned()));
        push_member(&mut m, "message", JsonOut::Str(h.message.clone()));
        push_member(&mut m, "report_only", JsonOut::Bool(h.report_only));
        assert(view_members(m@) =~= match heuristic_json_model(h@) {
            JsonV::Object(x) => x,
            _ => Seq::empty(),
        });
        push_item(&mut items, JsonOut::Object(m));
        assert(hs.subrange(0, i + 1) == hs.subrange(0, i as int).push(h@));
        assert(heuristics_json_model(hs.subrange(0, i + 1)) == heuristics_json_model(
            hs.subrange(0, i as int),
        ).push(heuristic_json_model(h@)));
        i = i + 1;
    }
    assert(hs.subrange(0, hs.len() as int) == hs);
    JsonOut::Array(items)
}

/// JSON of the shared inspect model.
pub open spec fn inspect_json_model(m: InspectModel, home: Option<Seq<char>>) -> JsonV {
    JsonV::Object(
        seq![
            ("facts"@, facts_json_model(m.facts, home)),
            ("heuristics"@, JsonV::Array(heuristics_json_model(heuristic_views(m.heuristics@)))),
            (
                "decision"@,
                JsonV::Object(
                    seq![
                        ("recommendation"@, JsonV::Str(decision_text(m.decision.recommendation))),
                        ("reasons"@, JsonV::Array(str_values(string_views(m.decision.reasons@)))),
                        (
                            "required_next_action"@,
                            JsonV::Str(next_action_text(m.decision.required_next_action)),
                        ),
                    ],
                ),
            ),
            (
                "authority_context"@,
                JsonV::Object(
                    seq![("redacted"@, authority_json_model(m.authority_context.redacted@))],
                ),
            ),
            (
                "execution_state"@,
                JsonV::Object(
                    seq![
                        ("state"@, JsonV::Str(execution_state_text(m.execution_state.state))),
                        (
                            "package_code_executed"@,
                            JsonV::Bool(m.execution_state.package_code_executed),
                        ),
                    ],
                ),
            ),
        ],
    )
}

/// The JSON of the shared inspect model.
#[verifier::spinoff_prover]
#[verifier::rlimit(30)]
pub fn inspect_json(model: &InspectModel, home: Option<&str>) -> (r: JsonOut)
    ensures
        r@ == inspect_json_model(*model, crate::redaction::opt_view(home)),
{
    let mut d: Vec<(String, JsonOut)> = Vec::new();
    push_member(&mut d, "recommendation", JsonOut::Str(decision_name(&model.decision.recommendation).to_owned()));
    push_member(&mut d, "reasons", json_str_array(&model.decision.reasons));
    push_member(
        &mut d,
        "required_next_action",
        JsonOut::Str(next_action_name(model.decision.required_next_action).to_owned()),
    );
    let mut a: Vec<(String, JsonOut)> = Vec::new();
    push_member(&mut a, "redacted", authority_json(&model.authority_context.redacted));
    let mut e: Vec<(String, JsonOut)> = Vec::new();
    push_member(&mut e, "state", JsonOut::Str(execution_state_name(model.execution_state.state).to_owned()));
    push_member(&mut e, "package_code_executed", JsonOut::Bool(model.execution_state.package_code_executed));
    assert(view_members(d@) =~= seq![
        ("recommendation"@, JsonV::Str(decision_text(model.decision.recommendation))),
        ("reasons"@, JsonV::Array(str_values(string_views(model.decision.reasons@)))),
        ("required_next_action"@, JsonV::Str(next_action_text(model.decision.required_next_action))),
    ]);
    assert(view_members(a@) =~= seq![("redacted"@, authority_json_model(model.authority_context.redacted@))]);
    assert(view_members(e@) =~= seq![
        ("state"@, JsonV::Str(execution_state_text(model.execution_state.state))),
        ("package_code_executed"@, JsonV::Bool(model.execution_state.package_code_executed)),
    ]);
    let mut m: Vec<(String, JsonOut)> = Vec::new();
    push_member(&mut m, "facts", facts_json(&model.facts, home));
    push_member(&mut m, "heuristics", heuristics_json(model));
    push_member(&mut m, "decision", JsonOut::Object(d));
    push_member(&mut m, "authority_context", JsonOut::Object(a));
    push_member(&mut m, "execution_state", JsonOut::Object(e));
    assert(view_members(m@) =~= match inspect_json_model(*model, crate::redaction::opt_view(home)) {
        JsonV::Object(x) => x,
        _ => Seq::empty(),
    });
    JsonOut::Object(m)
}

/// JSON of a receipt's artifact identity.
pub open spec fn receipt_artifact_json_model(a: ReceiptArtifactIdentity) -> JsonV {
    JsonV::Object(
        seq![
            ("name"@, JsonV::Str(a.name@)),
            ("version"@, JsonV::Str(a.version@)),
            ("integrity"@, JsonV::Str(a.integrity@)),
            ("digest_algorithm"@, JsonV::Str(a.digest_algorithm@)),
            ("digest"@, JsonV::Str(a.digest@)),
        ],
    )
}

/// JSON of a decision receipt; absent values are `null`.
pub open spec fn receipt_json_model(r: InspectDecisionReceipt) -> JsonV {
    JsonV::Object(
        seq![
            ("receipt_version"@, JsonV::Str(r.receipt_version@)),
            ("schema_version"@, JsonV::Str(r.schema_version@)),
            ("policy_version"@, JsonV::Str(r.policy_version@)),
            ("issued_at"@, opt_str_json(opt_view(r.issued_at))),
            ("cache_status"@, JsonV::Str(r.cache_status@)),
            (
                "artifact"@,
                match r.artifact {
                    Some(a) => receipt_artifact_json_model(a),
                    None => JsonV::Null,
                },
            ),
            (
                "command"@,
                JsonV::Object(
                    seq![
                        ("identity_key"@, JsonV::Str(r.command.identity_key@)),
                        ("package_state"@, JsonV::Str(r.command.package_state@)),
                        ("package_name"@, opt_str_json(opt_view(r.command.package_name))),
                        ("package_version"@, opt_str_json(opt_view(r.command.package_version))),
                        (
                            "forwarded_args_count"@,
                            JsonV::Number(decimal(r.command.forwarded_args_count as nat)),
                        ),
                        ("requested_display"@, JsonV::Str(r.command.requested_display@)),
                        (
                            "forwarded_args_display"@,
                            JsonV::Array(str_values(string_views(r.command.forwarded_args_display@))),
                        ),
                    ],
                ),
            ),
            (
                "evidence_summary"@,
                JsonV::Object(
                    seq![
                        ("decision"@, JsonV::Str(json_decision_text(r.evidence_summary.decision))),
                        (
                            "required_next_action"@,
                            JsonV::Str(json_next_action_text(r.evidence_summary.required_next_action)),
                        ),
                        (
                            "reasons"@,
                            JsonV::Array(str_values(string_views(r.evidence_summary.reasons@))),
                        ),
                        ("exit_code"@, JsonV::Number(i32_text(r.evidence_summary.exit_code))),
                        (
                            "execution_state"@,
                            JsonV::Str(execution_state_text(r.evidence_summary.execution_state)),
                        ),
                        (
                            "package_code_executed"@,
                            JsonV::Bool(r.evidence_summary.package_code_executed),
                        ),
                        (
                            "heuristics_count"@,
                            JsonV::Number(decimal(r.evidence_summary.heuristics_count as nat)),
                        ),
                    ],
                ),
            ),
            (
                "redaction"@,
                JsonV::Object(
                    seq![
                        ("display_redaction"@, JsonV::Str(r.redaction.display_redaction@)),
                        (
                            "authority_identity_status"@,
                            JsonV::Str(r.redaction.authority_identity_status@),
                        ),
                        ("command_intent_key"@, JsonV::Str(r.redaction.command_intent_key@)),
                        ("cwd_trust_class"@, JsonV::Str(r.redaction.cwd_trust_class@)),
                        ("registry_key"@, opt_str_json(opt_view(r.redaction.registry_key))),
                        ("boundary"@, JsonV::Str(r.redaction.boundary@)),
                    ],
                ),
            ),
        ],
    )
}

fn opt_json(o: &Option<String>) -> (r: JsonOut)
    ensures
        r@ == opt_str_json(opt_view(*o)),
{
    match o {
        Some(s) => JsonOut::Str(s.clone()),
        None => JsonOut::Null,
    }
}

/// The JSON of a decision receipt.
pub fn receipt_json(r: &InspectDecisionReceipt) -> (j: JsonOut)
    ensures
        j@ == receipt_json_model(*r),
{
    let artifact = match &r.artifact {
        Some(a) => {
            let mut am: Vec<(String, JsonOut)> = Vec::new();
            push_member(&mut am, "name", JsonOut::Str(a.name.clone()));
            push_member(&mut am, "version", JsonOut::Str(a.version.clone()));
            push_member(&mut am, "integrity", JsonOut::Str(a.integrity.clone()));
            push_member(&mut am, "digest_algorithm", JsonOut::Str(a.digest_algorithm.clone()));
            push_member(&mut am, "digest", JsonOut::Str(a.digest.clone()));
            assert(view_members(am@) =~= match receipt_artifact_json_model(*a) {
                JsonV::Object(x) => x,
                _ => Seq::empty(),
            });
            JsonOut::Object(am)
        },
        None => JsonOut::Null,
    };
    let mut c: Vec<(String, JsonOut)> = Vec::new();
    push_member(&mut c, "identity_key", JsonOut::Str(r.command.identity_key.clone()));
    push_member(&mut c, "package_state", JsonOut::Str(r.command.package_state.to_owned()));
    push_member(&mut c, "package_name", opt_json(&r.command.package_name));
    push_member(&mut c, "package_version", opt_json(&r.command.package_version));
    push_member(&mut c, "forwarded_args_count", json_usize(r.command.forwarded_args_count));
    push_member(&mut c, "requested_display", JsonOut::Str(r.command.requested_display.clone()));
    push_member(&mut c, "forwarded_args_display", json_str_array(&r.command.forwarded_args_display));
    let mut e: Vec<(String, JsonOut)> = Vec::new();
    push_member(&mut e, "decision", JsonOut::Str(json_decision_name(r.evidence_summary.decision).to_owned()));
    push_member(
        &mut e,
        "required_next_action",
        JsonOut::Str(json_next_action_name(r.evidence_summary.required_next_action).to_owned()),
    );
    push_member(&mut e, "reasons", json_str_array(&r.evidence_summary.reasons));
    push_member(&mut e, "exit_code", JsonOut::Number(i32_to_decimal(r.evidence_summary.exit_code)));
    push_member(
        &mut e,
        "execution_state",
        JsonOut::Str(execution_state_name(r.evidence_summary.execution_state).to_owned()),
    );
    push_member(&mut e, "package_code_executed", JsonOut::Bool(r.evidence_summary.package_code_executed));
    push_member(&mut e, "heuristics_count", json_usize(r.evidence_summary.heuristics_count));
    let mut d: Vec<(String, JsonOut)> = Vec::new();
    push_member(&mut d, "display_redaction", JsonOut::Str(r.redaction.display_redaction.to_owned()));
    push_member(
        &mut d,
        "authority_identity_status",
        JsonOut::Str(r.redaction.authority_identity_status.to_owned()),
    );
    push_member(&mut d, "command_intent_key", JsonOut::Str(r.redaction.command_intent_key.clone()));
    push_member(&mut d, "cwd_trust_class", JsonOut::Str(r.redaction.cwd_trust_class.clone()));
    push_member(&mut d, "registry_key", opt_json(&r.redaction.registry_key));
    push_member(&mut d, "boundary", JsonOut::Str(r.redaction.boundary.to_owned()));
    assert(view_members(c@) =~= seq![
        ("identity_key"@, JsonV::Str(r.command.identity_key@)),
        ("package_state"@, JsonV::Str(r.command.package_state@)),
        ("package_name"@, opt_str_json(opt_view(r.command.package_name))),
        ("package_version"@, opt_str_json(opt_view(r.command.package_version))),
        ("forwarded_args_count"@, JsonV::Number(decimal(r.command.forwarded_args_count as nat))),
        ("requested_display"@, JsonV::Str(r.command.requested_display@)),
        ("forwarded_args_display"@, JsonV::Array(str_values(string_views(r.command.forwarded_args_display@)))),
    ]);
    assert(view_members(e@) =~= seq![
        ("decision"@, JsonV::Str(json_decision_text(r.evidence_summary.decision))),
        ("required_next_action"@, JsonV::Str(json_next_action_text(r.evidence_summary.required_next_action))),
        ("reasons"@, JsonV::Array(str_values(string_views(r.evidence_summary.reasons@)))),
        ("exit_code"@, JsonV::Number(i32_text(r.evidence_summary.exit_code))),
        ("execution_state"@, JsonV::Str(execution_state_text(r.evidence_summary.execution_state))),
        ("package_code_executed"@, JsonV::Bool(r.evidence_summary.package_code_executed)),
        ("heuristics_count"@, JsonV::Number(decimal(r.evidence_summary.heuristics_count as nat))),
    ]);
    assert(view_members(d@) =~= seq![
        ("display_redaction"@, JsonV::Str(r.redaction.display_redaction@)),
        ("authority_identity_status"@, JsonV::Str(r.redaction.authority_identity_status@)),
        ("command_intent_key"@, JsonV::Str(r.redaction.command_intent_key@)),
        ("cwd_trust_class"@, JsonV::Str(r.redaction.cwd_trust_class@)),
        ("registry_key"@, opt_str_json(opt_view(r.redaction.registry_key))),
        ("boundary"@, JsonV::Str(r.redaction.boundary@)),
    ]);
    let mut m: Vec<(String, JsonOut)> = Vec::new();
    push_member(&mut m, "receipt_version", JsonOut::Str(r.receipt_version.to_owned()));
    push_member(&mut m, "schema_version", JsonOut::Str(r.schema_version.to_owned()));
    push_member(&mut m, "policy_version", JsonOut::Str(r.policy_version.to_owned()));
    push_member(&mut m, "issued_at", opt_json(&r.issued_at));
    push_member(&mut m, "cache_status", JsonOut::Str(r.cache_status.to_owned()));
    push_member(&mut m, "artifact", artifact);
    push_member(&mut m, "command", JsonOut::Object(c));
    push_member(&mut m, "evidence_summary", JsonOut::Object(e));
    push_member(&mut m, "redaction", JsonOut::Object(d));
    assert(view_members(m@) =~= match receipt_json_model(*r) {
        JsonV::Object(x) => x,
        _ => Seq::empty(),
    });
    JsonOut::Object(m)
}

} // verus!
