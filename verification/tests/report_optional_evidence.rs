use safe_npx::authority_context::build_authority_context_with_paths;
use safe_npx::contracts::{
    ArtifactIdentity, CommandIntent, Decision, M1Reason, PackageSpec, RegistrySource, ResolvedPackage,
    SourceContext,
};
use safe_npx::evidence::{PackageOptionalEvidence, PackagePerson, PackageScopeCategory, RegistryEvidence, RegistryPerson};
use safe_npx::inspect_model::{
    InspectAuthorityContext, InspectDecision, InspectExecutionState, InspectExecutionStateKind, InspectFacts,
    InspectModel, InspectNextAction, InspectRefusalFact, InspectRefusalState,
};
use safe_npx::report_inspect::{render_model_facts, render_model_intent};
use safe_npx::report_optional_evidence::{render_package_optional_evidence, render_registry_optional_evidence};

fn registry_evidence() -> RegistryEvidence {
    RegistryEvidence {
        registry: RegistrySource { url: "https://registry.npmjs.org/".to_string(), scope: None },
        package_scope: PackageScopeCategory::Unscoped,
        name: "create-example".to_string(),
        version: "1.2.3".to_string(),
        publish_time: None,
        maintainers: Vec::new(),
        publisher: None,
        repository: None,
        license: None,
        provenance: Vec::new(),
        dist_integrity: "sha512-example".to_string(),
        tarball_url: "https://registry.npmjs.org/create-example/-/create-example-1.2.3.tgz".to_string(),
        evidence_boundary: "registry metadata is not proof of tarball package contents",
    }
}

#[test]
fn absent_registry_optional_evidence_renders_nothing() {
    assert_eq!(render_registry_optional_evidence(&registry_evidence(), None), "");
    assert_eq!(render_package_optional_evidence(&PackageOptionalEvidence::default(), None), "");
}

#[test]
fn registry_optional_evidence_lists_present_fields_in_order() {
    let mut evidence = registry_evidence();
    evidence.publish_time = Some("2026-06-26T07:00:00.000Z".to_string());
    evidence.maintainers = vec![
        RegistryPerson { name: Some("Alice".to_string()), email: Some("alice@example.test".to_string()) },
        RegistryPerson { name: None, email: None },
    ];
    evidence.publisher = Some(RegistryPerson { name: None, email: Some("pub@example.test".to_string()) });
    evidence.repository = Some("https://secret-token@github.example.test/org/repo".to_string());
    evidence.license = Some("MIT".to_string());
    evidence.provenance = vec![
        ("attestations".to_string(), "[]".to_string()),
        ("signatures".to_string(), "[]".to_string()),
    ];

    let text = render_registry_optional_evidence(&evidence, None);
    assert!(!text.contains("secret-token"));
    let lines: Vec<&str> = text.lines().collect();
    assert_eq!(lines[0], "Published: 2026-06-26T07:00:00.000Z");
    assert_eq!(lines[1], "Maintainers: Alice <alice@example.test>, unknown");
    assert_eq!(lines[2], "Publisher: pub@example.test");
    assert!(lines[3].starts_with("Repository: https://"));
    assert_eq!(lines[4], "License: MIT");
    assert_eq!(lines[5], "Provenance: attestations, signatures");
    assert_eq!(lines.len(), 6);
    assert!(text.ends_with('\n'));
}

#[test]
fn package_optional_evidence_lists_present_fields_in_order() {
    let evidence = PackageOptionalEvidence {
        repository: Some("github:example/create-example".to_string()),
        license: None,
        maintainers: vec![PackagePerson { name: Some("Bob".to_string()), email: None }],
        provenance: vec![("provenance".to_string(), "{}".to_string())],
    };

    assert_eq!(
        render_package_optional_evidence(&evidence, None),
        "Package repository: github:example/create-example\nPackage maintainers: Bob\nPackage provenance: provenance\n"
    );
}

fn model(facts: InspectFacts) -> InspectModel {
    InspectModel {
        authority_context: InspectAuthorityContext {
            redacted: build_authority_context_with_paths(
                &facts.command.requested,
                &SourceContext::Unknown,
                None,
                None,
                Some("/workspace/safenpx"),
                Some("/home/example"),
                "/tmp",
            ),
        },
        facts,
        heuristics: Vec::new(),
        decision: InspectDecision {
            recommendation: Decision::Ask,
            reasons: Vec::new(),
            required_next_action: InspectNextAction::AskUser,
        },
        execution_state: InspectExecutionState {
            state: InspectExecutionStateKind::StoppedBeforeExecution,
            package_code_executed: false,
        },
    }
}

fn intent() -> CommandIntent {
    CommandIntent::supported(
        PackageSpec::exact("create-example@1.2.3", "create-example", "1.2.3", None),
        vec!["--token".to_string(), "abc".to_string()],
    )
}

#[test]
fn model_intent_and_refusal_facts_render_for_humans() {
    let m = model(InspectFacts {
        command: intent(),
        resolved_package: None,
        registry: None,
        artifact: None,
        root_package: None,
        refusal: Some(InspectRefusalFact {
            state: InspectRefusalState::Failed,
            reason: M1Reason::RegistryError,
            downloaded: false,
            detail: Some("registry unavailable".to_string()),
        }),
    });

    assert_eq!(render_model_intent(&m, None), "Parsed: create-example@1.2.3\nForwarded args: --token <redacted>\n");
    assert_eq!(
        render_model_facts(&m, None),
        "M1 evidence: failed\nReason: registry_error\nDownloaded: false\nDetail: registry unavailable\n"
    );
}

#[test]
fn verified_model_facts_include_registry_optional_lines() {
    let mut registry = registry_evidence();
    registry.license = Some("Apache-2.0".to_string());
    let m = model(InspectFacts {
        command: intent(),
        resolved_package: Some(ResolvedPackage {
            name: "create-example".to_string(),
            version: "1.2.3".to_string(),
            registry: RegistrySource { url: "https://registry.npmjs.org/".to_string(), scope: None },
            tarball_url: "https://registry.npmjs.org/create-example/-/create-example-1.2.3.tgz".to_string(),
            integrity: "sha512-example".to_string(),
        }),
        registry: Some(registry),
        artifact: Some(ArtifactIdentity {
            name: "create-example".to_string(),
            version: "1.2.3".to_string(),
            integrity: "sha512-example".to_string(),
            digest_algorithm: "sha512".to_string(),
            digest: "abcd".to_string(),
        }),
        root_package: None,
        refusal: None,
    });

    assert_eq!(
        render_model_facts(&m, None),
        "M1 evidence: verified\nResolved: create-example@1.2.3\nRegistry: https://registry.npmjs.org/\nRegistry evidence: registry metadata is not proof of tarball package contents\nTarball: https://registry.npmjs.org/create-example/-/create-example-1.2.3.tgz\nIntegrity: verified\nIntegrity metadata: sha512-example\nDigest: sha512:abcd\nLicense: Apache-2.0\n"
    );
}

#[test]
fn unresolved_model_without_refusal_has_no_fact_lines() {
    let m = model(InspectFacts {
        command: intent(),
        resolved_package: None,
        registry: None,
        artifact: None,
        root_package: None,
        refusal: None,
    });
    assert_eq!(render_model_facts(&m, None), "");
}
