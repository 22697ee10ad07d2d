use safe_npx::closure::{
    CacheSource, ClosureCommandIdentity, ClosureDecision, DependencyDeclaration,
    DependencyDeclarationKind, ExecutableFileIdentity, ExecutableFileSource,
    ExecutionClosureEvidence, LifecycleScript, M2Reason, VerifiedDependencyArtifact,
};
use safe_npx::contracts::{ArtifactIdentity, RegistrySource};

fn evidence_with(
    lifecycle_scripts: Vec<LifecycleScript>,
    dependency_declarations: Vec<DependencyDeclaration>,
    verified_dependencies: Vec<VerifiedDependencyArtifact>,
    decision: ClosureDecision,
    reasons: Vec<M2Reason>,
) -> ExecutionClosureEvidence {
    ExecutionClosureEvidence {
        command: ClosureCommandIdentity {
            requested: "create-example@1.2.3".to_string(),
            forwarded_args: vec!["--template".to_string(), "react".to_string()],
        },
        root_artifact: artifact("create-example", "1.2.3"),
        registry: RegistrySource {
            url: "https://registry.npmjs.org/".to_string(),
            scope: None,
        },
        cache: Some(CacheSource {
            namespace: "safe-npx".to_string(),
            key: "sha512-fixture".to_string(),
            digest: "abc123".to_string(),
        }),
        selected_bin: Some(executable(
            "package/bin/create-example.js",
            ExecutableFileSource::RootArtifact,
        )),
        generated_shim: Some(executable(
            ".safe-npx/shims/create-example",
            ExecutableFileSource::GeneratedShim,
        )),
        lifecycle_scripts,
        dependency_declarations,
        verified_dependencies,
        decision,
        reasons,
    }
}

fn executable(relative_path: &str, source: ExecutableFileSource) -> ExecutableFileIdentity {
    ExecutableFileIdentity {
        relative_path: relative_path.to_string(),
        digest_algorithm: "sha512".to_string(),
        digest: "abc123".to_string(),
        source,
    }
}

fn artifact(name: &str, version: &str) -> ArtifactIdentity {
    ArtifactIdentity {
        name: name.to_string(),
        version: version.to_string(),
        integrity: "sha512-fixture".to_string(),
        digest_algorithm: "sha512".to_string(),
        digest: "abc123".to_string(),
    }
}

#[test]
fn reasons_map_to_conservative_refusal_decisions() {
    assert_eq!(M2Reason::InteractiveApprovalRequired.refusal_decision(), ClosureDecision::Ask);
    assert_eq!(M2Reason::UnsupportedClosure.refusal_decision(), ClosureDecision::ExecutionRefused);
    assert_eq!(M2Reason::LifecycleScriptPresent.refusal_decision(), ClosureDecision::ExecutionRefused);
    assert_eq!(M2Reason::AmbiguousBin.refusal_decision(), ClosureDecision::Unsupported);
    assert_eq!(M2Reason::NonInteractiveStop.refusal_decision(), ClosureDecision::ExecutionRefused);
}

#[test]
fn dependency_declarations_are_not_verified_artifacts() {
    let evidence = evidence_with(
        Vec::new(),
        vec![DependencyDeclaration {
            name: "left-pad".to_string(),
            requirement: "^1.3.0".to_string(),
            kind: DependencyDeclarationKind::Runtime,
        }],
        Vec::new(),
        ClosureDecision::ExecutionRefused,
        vec![M2Reason::UnsupportedClosure],
    );

    assert!(evidence.has_unverified_dependency_declarations());
    assert!(!evidence.is_executable());
}

#[test]
fn partial_dependency_verification_is_not_executable() {
    let evidence = evidence_with(
        Vec::new(),
        vec![
            DependencyDeclaration {
                name: "left-pad".to_string(),
                requirement: "^1.3.0".to_string(),
                kind: DependencyDeclarationKind::Runtime,
            },
            DependencyDeclaration {
                name: "right-pad".to_string(),
                requirement: "^1.0.0".to_string(),
                kind: DependencyDeclarationKind::Runtime,
            },
        ],
        vec![VerifiedDependencyArtifact {
            name: "left-pad".to_string(),
            version: "1.3.0".to_string(),
            artifact: artifact("left-pad", "1.3.0"),
        }],
        ClosureDecision::Allow,
        Vec::new(),
    );

    assert!(evidence.has_unverified_dependency_declarations());
    assert!(!evidence.is_executable());
}

#[test]
fn executable_requires_complete_allow_evidence() {
    let evidence = evidence_with(Vec::new(), Vec::new(), Vec::new(), ClosureDecision::Allow, Vec::new());

    assert!(evidence.is_executable());

    let refused = evidence_with(
        Vec::new(),
        Vec::new(),
        Vec::new(),
        ClosureDecision::Allow,
        vec![M2Reason::UnsupportedClosure],
    );
    assert!(!refused.is_executable());

    let mut root_artifact_only = evidence;
    root_artifact_only.selected_bin = None;
    root_artifact_only.generated_shim = None;
    assert!(!root_artifact_only.is_executable());
}

#[test]
fn evidence_represents_bin_shim_and_lifecycle_without_running() {
    let evidence = evidence_with(
        vec![LifecycleScript {
            name: "postinstall".to_string(),
            command: "node postinstall.js".to_string(),
        }],
        Vec::new(),
        Vec::new(),
        ClosureDecision::ExecutionRefused,
        vec![M2Reason::LifecycleScriptPresent],
    );

    assert_eq!(evidence.selected_bin.as_ref().expect("selected bin").source, ExecutableFileSource::RootArtifact);
    assert_eq!(evidence.generated_shim.as_ref().expect("generated shim").source, ExecutableFileSource::GeneratedShim);
    assert_eq!(evidence.lifecycle_scripts[0].name, "postinstall");
    assert!(!evidence.is_executable());
}

#[test]
fn fully_verified_dependencies_allow_execution() {
    let evidence = evidence_with(
        Vec::new(),
        vec![DependencyDeclaration {
            name: "left-pad".to_string(),
            requirement: "^1.3.0".to_string(),
            kind: DependencyDeclarationKind::Runtime,
        }],
        vec![VerifiedDependencyArtifact {
            name: "left-pad".to_string(),
            version: "1.3.0".to_string(),
            artifact: artifact("left-pad", "1.3.0"),
        }],
        ClosureDecision::Allow,
        Vec::new(),
    );

    assert!(!evidence.has_unverified_dependency_declarations());
    assert!(evidence.is_executable());
}
