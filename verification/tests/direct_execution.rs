use safe_npx::bin_selection::{select_package_bin, SelectedPackageBin};
use safe_npx::closure::{ClosureDecision, DependencyDeclarationKind, ExecutableFileSource, M2Reason};
use safe_npx::contracts::{ArtifactIdentity, CommandIntent, PackageSpec};
use safe_npx::direct_execution::{
    fixture_invocation, fixture_outcome, plan_local_fixture_execution, DirectExecutionOutcome,
    ProcessBoundaryOutput,
};
use safe_npx::evidence::{ExtractedDependencyDeclaration, ExtractedPackageMetadata, PackageOptionalEvidence};
use safe_npx::executable_identity::{
    check_selected_bin_location, identity_step_failure, refuse_generated_shim_candidate,
    selected_bin_identity, IdentityStep, EXECUTABLE_DIGEST_ALGORITHM,
};
use safe_npx::extraction::ExtractedRootArtifact;
use sha2::{Digest, Sha512};

fn intent_with_args(forwarded_args: Vec<String>) -> CommandIntent {
    CommandIntent::supported(
        PackageSpec::exact("create-example@1.2.3", "create-example", "1.2.3", None),
        forwarded_args,
    )
}

fn metadata_with_bins(bins: &[(&str, &str)]) -> ExtractedPackageMetadata {
    ExtractedPackageMetadata {
        name: Some("create-example".to_string()),
        version: Some("1.2.3".to_string()),
        bins: bins.iter().map(|(n, p)| (n.to_string(), p.to_string())).collect(),
        lifecycle_scripts: Vec::new(),
        dependency_declarations: Vec::new(),
        optional_evidence: PackageOptionalEvidence::default(),
        package_json_path: "package/package.json".to_string(),
    }
}

fn artifact_with_metadata(metadata: ExtractedPackageMetadata) -> ExtractedRootArtifact {
    ExtractedRootArtifact {
        artifact: ArtifactIdentity {
            name: "create-example".to_string(),
            version: "1.2.3".to_string(),
            integrity: "sha512-fixture".to_string(),
            digest_algorithm: "sha512".to_string(),
            digest: "fixture".to_string(),
        },
        metadata,
        artifact_size_bytes: 7,
        file_count: 1,
    }
}

/// Plan the run of a marked fixture; a refusal is the outcome.
fn refused(artifact: &ExtractedRootArtifact, intent: &CommandIntent, marked: bool) -> DirectExecutionOutcome {
    plan_local_fixture_execution(artifact, intent, marked).expect_err("fixture should be refused")
}

#[test]
fn refuses_unmarked_roots_without_execution() {
    let artifact = artifact_with_metadata(metadata_with_bins(&[("create-example", "bin/create-example")]));

    let outcome = refused(&artifact, &intent_with_args(vec![]), false);

    assert_eq!(outcome.decision, ClosureDecision::ExecutionRefused);
    assert_eq!(outcome.reasons, vec![M2Reason::UnsupportedClosure]);
    assert!(outcome.selected_bin.is_none());
    assert!(outcome.exit_code.is_none());
}

#[test]
fn refuses_lifecycle_scripts() {
    let mut metadata = metadata_with_bins(&[("create-example", "bin/create-example")]);
    metadata.lifecycle_scripts.push(("postinstall".to_string(), "node postinstall.js".to_string()));

    let outcome = refused(&artifact_with_metadata(metadata), &intent_with_args(vec![]), true);

    assert_eq!(outcome.decision, ClosureDecision::ExecutionRefused);
    assert_eq!(outcome.reasons, vec![M2Reason::LifecycleScriptPresent]);
    assert!(outcome.exit_code.is_none());
}

fn assert_dependency_refused(kind: DependencyDeclarationKind) {
    let mut metadata = metadata_with_bins(&[("create-example", "bin/create-example")]);
    metadata.dependency_declarations.push(ExtractedDependencyDeclaration {
        name: "left-pad".to_string(),
        requirement: "^6.0.0".to_string(),
        kind,
    });

    let outcome = refused(&artifact_with_metadata(metadata), &intent_with_args(vec![]), true);

    assert_eq!(outcome.decision, ClosureDecision::ExecutionRefused);
    assert_eq!(outcome.reasons, vec![M2Reason::UnsupportedClosure]);
    assert!(outcome.exit_code.is_none());
}

#[test]
fn refuses_dependency_declarations() {
    assert_dependency_refused(DependencyDeclarationKind::Runtime);
}

#[test]
fn refuses_dev_dependency_declarations() {
    assert_dependency_refused(DependencyDeclarationKind::Development);
}

#[test]
fn refuses_ambiguous_bins_as_execution_refused() {
    let metadata = metadata_with_bins(&[("create-example", "bin/create-example"), ("other", "bin/other")]);

    let outcome = refused(&artifact_with_metadata(metadata), &intent_with_args(vec![]), true);

    assert_eq!(outcome.decision, ClosureDecision::ExecutionRefused);
    assert_eq!(outcome.reasons, vec![M2Reason::AmbiguousBin]);
    assert!(outcome.exit_code.is_none());
}

#[test]
fn refuses_missing_bins_as_execution_refused() {
    let outcome = refused(&artifact_with_metadata(metadata_with_bins(&[])), &intent_with_args(vec![]), true);

    assert_eq!(outcome.decision, ClosureDecision::ExecutionRefused);
    assert_eq!(outcome.reasons, vec![M2Reason::MissingBin]);
    assert!(outcome.exit_code.is_none());
}

#[test]
fn refuses_artifact_that_is_not_the_requested_package() {
    let mut artifact = artifact_with_metadata(metadata_with_bins(&[("create-example", "bin/create-example")]));
    artifact.artifact.version = "1.2.4".to_string();

    let outcome = refused(&artifact, &intent_with_args(vec![]), true);

    assert_eq!(outcome.reasons, vec![M2Reason::UnsupportedClosure]);
    assert_eq!(outcome.detail, "artifact identity does not match requested exact package coordinates");
}

#[test]
fn marked_single_bin_fixture_plans_its_bin_and_records_the_run() {
    let artifact = artifact_with_metadata(metadata_with_bins(&[("create-example", "bin/create-example")]));
    let intent = intent_with_args(vec!["--template".to_string(), "react app".to_string()]);

    let selected = plan_local_fixture_execution(&artifact, &intent, true).expect("fixture should be planned");
    assert_eq!(selected.relative_path, "bin/create-example");

    let invocation = fixture_invocation("/tmp/fixture", &selected, &intent);
    assert_eq!(invocation.executable, "/tmp/fixture/bin/create-example");
    assert_eq!(invocation.args, intent.forwarded_args);
    assert_eq!(invocation.environment, vec![("SAFE_NPX_FIXTURE".to_string(), "1".to_string())]);

    let identity = selected_bin_identity(&selected, b"#!/bin/sh\n");
    let outcome = fixture_outcome(
        &intent,
        identity.clone(),
        "/tmp/fixture",
        Ok(ProcessBoundaryOutput { exit_code: Some(0), stdout: b"1|--template|react app".to_vec(), stderr: Vec::new() }),
    );
    assert_eq!(outcome.decision, ClosureDecision::Allow);
    assert!(outcome.reasons.is_empty());
    assert_eq!(outcome.selected_bin, Some(identity));
    assert_eq!(outcome.cwd, Some("/tmp/fixture".to_string()));
    assert!(outcome.environment.inherited_environment_cleared);
    assert_eq!(outcome.exit_code, Some(0));
    assert_eq!(outcome.stdout, b"1|--template|react app");

    let failed = fixture_outcome(&intent, selected_bin_identity(&selected, b"x"), "/tmp/fixture", Err("boom".to_string()));
    assert_eq!(failed.decision, ClosureDecision::ExecutionRefused);
    assert_eq!(failed.reasons, vec![M2Reason::UnsupportedClosure]);
    assert_eq!(failed.detail, "could not execute local fixture bin directly: boom");
    assert!(failed.exit_code.is_none());
}

#[test]
fn generated_shim_candidate_is_refused() {
    let error = refuse_generated_shim_candidate(".safe-npx/shims/create-example")
        .expect_err("generated shim should be refused");

    assert_eq!(error.decision, ClosureDecision::ExecutionRefused);
    assert_eq!(error.reason, M2Reason::UnsupportedClosure);
    assert!(error.detail.contains("generated shim identity is not modeled"));
}

#[test]
fn direct_bin_identity_records_digest() {
    let selected = SelectedPackageBin {
        name: "create-example".to_string(),
        relative_path: "bin/create.js".to_string(),
        selection: safe_npx::bin_selection::BinSelectionKind::SingleDeclaredBin,
    };
    let bytes = b"console.log('direct');\n";
    let identity = selected_bin_identity(&selected, bytes);

    assert_eq!(identity.relative_path, "bin/create.js");
    assert_eq!(identity.digest_algorithm, EXECUTABLE_DIGEST_ALGORITHM);
    assert_eq!(identity.digest, format!("{:x}", Sha512::digest(bytes)));
    assert_eq!(identity.source, ExecutableFileSource::RootArtifact);
}

#[test]
fn bin_path_escape_is_refused() {
    let error = check_selected_bin_location("/tmp/root", "/tmp/safe-npx-outside.js", true)
        .expect_err("escape should be refused");
    assert_eq!(error.decision, ClosureDecision::ExecutionRefused);
    assert_eq!(error.reason, M2Reason::UnsupportedClosure);
    assert!(error.detail.contains("escapes verified extraction root"));

    assert!(check_selected_bin_location("/tmp/root", "/tmp/root/bin/create.js", true).is_ok());
    let not_file = check_selected_bin_location("/tmp/root", "/tmp/root/bin", false).expect_err("directory");
    assert_eq!(not_file.detail, "selected bin path is not a regular file");
    assert!(check_selected_bin_location("/tmp/root", "/tmp/rootx/bin.js", true).is_err());

    let missing = identity_step_failure(IdentityStep::SelectedBin, "No such file or directory");
    assert_eq!(missing.detail, "selected bin is unavailable: No such file or directory");
}

/// Verifies package bin-object selections produce root-artifact byte identity.
#[test]
fn package_bin_object_identity_records_digest() {
    let mut metadata = metadata_with_bins(&[("create-example", "bin/object.js")]);
    metadata.name = Some("create-example".to_string());
    let selected = select_package_bin(&metadata).expect("object bin should select");

    let identity = selected_bin_identity(&selected, b"object-bin");

    assert_eq!(identity.relative_path, "bin/object.js");
    assert_eq!(identity.digest, format!("{:x}", Sha512::digest(b"object-bin")));
}

/// Verifies package string-bin selections use normalized metadata identity.
#[test]
fn package_bin_string_identity_records_digest() {
    let mut metadata = metadata_with_bins(&[("create-example", "cli.js")]);
    metadata.name = Some("@scope/create-example".to_string());
    let selected = select_package_bin(&metadata).expect("string bin should select");

    let identity = selected_bin_identity(&selected, b"string-bin");

    assert_eq!(selected.name, "create-example");
    assert_eq!(identity.relative_path, "cli.js");
    assert_eq!(identity.digest, format!("{:x}", Sha512::digest(b"string-bin")));
}
