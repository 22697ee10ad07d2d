use safe_npx::bin_selection::{select_package_bin, BinSelectionKind};
use safe_npx::closure::{ClosureDecision, M2Reason};
use safe_npx::evidence::{ExtractedPackageMetadata, PackageOptionalEvidence};

fn metadata_with_bins(bins: &[(&str, &str)]) -> ExtractedPackageMetadata {
    ExtractedPackageMetadata {
        name: Some("create-example".to_string()),
        version: Some("1.2.3".to_string()),
        bins: bins
            .iter()
            .map(|(name, path)| (name.to_string(), path.to_string()))
            .collect(),
        lifecycle_scripts: Vec::new(),
        dependency_declarations: Vec::new(),
        optional_evidence: PackageOptionalEvidence::default(),
        package_json_path: "package/package.json".to_string(),
    }
}

#[test]
fn single_bin_package_selection_is_deterministic() {
    let selected = select_package_bin(&metadata_with_bins(&[("create-example", "bin/create.js")]))
        .expect("single bin should be selected");

    assert_eq!(selected.name, "create-example");
    assert_eq!(selected.relative_path, "bin/create.js");
    assert_eq!(selected.selection, BinSelectionKind::SingleDeclaredBin);
}

#[test]
fn ambiguous_bins_return_stable_refusal() {
    let error = select_package_bin(&metadata_with_bins(&[
        ("create-example", "bin/create.js"),
        ("other-example", "bin/other.js"),
    ]))
    .expect_err("multiple bins should be ambiguous");

    assert_eq!(error.decision, ClosureDecision::Unsupported);
    assert_eq!(error.reason, M2Reason::AmbiguousBin);
    assert!(error.detail.contains("create-example,other-example"));
}

#[test]
fn missing_bin_returns_stable_refusal() {
    let error = select_package_bin(&metadata_with_bins(&[])).expect_err("missing bin should be refused");

    assert_eq!(error.decision, ClosureDecision::Unsupported);
    assert_eq!(error.reason, M2Reason::MissingBin);
    assert_eq!(error.detail, "package declares no executable bin");
}

#[test]
fn scoped_package_bin_selection_is_deterministic() {
    let mut metadata = metadata_with_bins(&[("create-example", "cli.js")]);
    metadata.name = Some("@scope/create-example".to_string());

    let selected = select_package_bin(&metadata).expect("scoped single bin should select");

    assert_eq!(selected.name, "create-example");
    assert_eq!(selected.relative_path, "cli.js");
}

#[test]
fn package_name_bin_name_mismatch_is_declared_evidence() {
    let mut metadata = metadata_with_bins(&[("create-other", "bin/create.js")]);
    metadata.name = Some("create-example".to_string());

    let selected = select_package_bin(&metadata).expect("single mismatch bin should select");

    assert_eq!(selected.name, "create-other");
    assert_eq!(selected.relative_path, "bin/create.js");
}

#[test]
fn bins_are_read_as_the_package_bin_map() {
    let unordered = metadata_with_bins(&[("zeta", "bin/z.js"), ("alpha", "bin/a.js")]);
    let error = select_package_bin(&unordered).expect_err("two bins are ambiguous");
    assert_eq!(error.detail, "multiple package bins declared: alpha,zeta");

    let repeated = metadata_with_bins(&[("create-example", "bin/old.js"), ("create-example", "bin/new.js")]);
    let selected = select_package_bin(&repeated).expect("one command is one bin");
    assert_eq!(selected.name, "create-example");
    assert_eq!(selected.relative_path, "bin/new.js");
}

#[test]
fn extraction_text_lists_bins_and_scripts_in_key_order() {
    let mut metadata = metadata_with_bins(&[("zeta", "bin/z.js"), ("alpha", "bin/a.js"), ("zeta", "bin/z2.js")]);
    metadata.lifecycle_scripts = vec![
        ("postinstall".to_string(), "node post.js".to_string()),
        ("install".to_string(), "node install.js".to_string()),
    ];
    let evidence = safe_npx::evidence::StaticExtractionEvidence {
        metadata: metadata.clone(),
        artifact_size_bytes: 10,
        file_count: 2,
        status: "extracted",
    };
    let text = safe_npx::extraction::render_static_extraction(Some(&evidence));
    assert!(text.contains("Bins: 2\n  alpha -> bin/a.js\n  zeta -> bin/z2.js\n"));
    assert!(text.contains("Lifecycle scripts: 2\n  install -> node install.js\n  postinstall -> node post.js\n"));

    let assessment = safe_npx::closure_blockers::assess_static_closure_blockers(&metadata);
    let names: Vec<&str> = assessment.lifecycle_scripts.iter().map(|s| s.name.as_str()).collect();
    assert_eq!(names, vec!["install", "postinstall"]);
}
