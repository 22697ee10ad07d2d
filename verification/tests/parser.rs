use safe_npx::contracts::{M1Reason, PackageSpecParse, UnsupportedSpecCategory};
use safe_npx::parser::{classify_package_spec, parse_command_intent};

#[test]
fn parses_unscoped_exact_version_specs() {
    let intent = parse_command_intent(
        "create-example@1.2.3",
        vec!["--template".to_string(), "react".to_string()],
    );

    assert_eq!(intent.forwarded_args, ["--template", "react"]);
    let spec = match intent.package_spec {
        PackageSpecParse::Supported(spec) => Some(spec),
        _ => None,
    };
    assert!(spec.is_some());
    let spec = spec.expect("supported spec was asserted");
    assert_eq!(spec.name, "create-example");
    assert_eq!(spec.version, "1.2.3");
    assert_eq!(spec.scope, None);
}

#[test]
fn parses_scoped_exact_version_specs() {
    let intent = parse_command_intent("@scope/create-example@1.2.3-beta.1", Vec::new());

    let spec = match intent.package_spec {
        PackageSpecParse::Supported(spec) => Some(spec),
        _ => None,
    };
    assert!(spec.is_some());
    let spec = spec.expect("supported scoped spec was asserted");
    assert_eq!(spec.name, "@scope/create-example");
    assert_eq!(spec.version, "1.2.3-beta.1");
    assert_eq!(spec.scope, Some("scope".to_string()));
}

#[test]
fn parses_exact_semver_prerelease_and_build_versions() {
    for raw in [
        "create-example@1.2.3-next.0",
        "create-example@1.2.3+exp.sha",
        "npm-exec-helper@1.2.3",
    ] {
        let intent = parse_command_intent(raw, Vec::new());
        assert!(matches!(intent.package_spec, PackageSpecParse::Supported(_)));
    }
}

#[test]
fn rejects_unsupported_specs_without_downloads() {
    let cases = [
        ("create-example", UnsupportedSpecCategory::UnversionedName),
        ("create-example@latest", UnsupportedSpecCategory::VersionRange),
        ("create-example@^1.2.3", UnsupportedSpecCategory::VersionRange),
        ("create-example@beta", UnsupportedSpecCategory::VersionRange),
        ("create-example@next", UnsupportedSpecCategory::VersionRange),
        ("create-example@1", UnsupportedSpecCategory::VersionRange),
        ("create-example@1.2", UnsupportedSpecCategory::VersionRange),
        ("github:user/repo", UnsupportedSpecCategory::GitUrl),
        ("./local-package", UnsupportedSpecCategory::LocalPath),
        ("..\\local@1.2.3", UnsupportedSpecCategory::LocalPath),
        ("C:\\tmp\\pkg@1.2.3", UnsupportedSpecCategory::LocalPath),
        ("https://example.test/pkg.tgz", UnsupportedSpecCategory::TarballUrl),
        ("alias@npm:create-example@1.2.3", UnsupportedSpecCategory::Alias),
        ("npm exec create-example@1.2.3", UnsupportedSpecCategory::NpmExecVariant),
    ];

    for (raw, expected_category) in cases {
        let intent = parse_command_intent(raw, vec!["--ignored".to_string()]);
        assert!(intent.forwarded_args.is_empty(), "{raw}");
        let unsupported = match intent.package_spec {
            PackageSpecParse::Unsupported(unsupported) => Some(unsupported),
            _ => None,
        };
        assert!(unsupported.is_some(), "{raw}");
        let unsupported = unsupported.expect("unsupported spec was asserted");
        assert_eq!(unsupported.reason, M1Reason::UnsupportedSpec, "{raw}");
        assert_eq!(unsupported.category, expected_category, "{raw}");
        assert!(!unsupported.downloaded, "{raw}");
    }
}

#[test]
fn rejects_malformed_specs_without_downloads() {
    for raw in ["", "@scope/", "create-example@", "@/pkg@1.2.3"] {
        let intent = parse_command_intent(raw, vec!["--ignored".to_string()]);
        assert!(intent.forwarded_args.is_empty(), "{raw}");
        let malformed = match intent.package_spec {
            PackageSpecParse::Malformed(malformed) => Some(malformed),
            _ => None,
        };
        assert!(malformed.is_some(), "{raw}");
        let malformed = malformed.expect("malformed spec was asserted");
        assert_eq!(malformed.reason, M1Reason::MalformedSpec, "{raw}");
        assert!(!malformed.downloaded, "{raw}");
    }
}

#[test]
fn multiple_specs_and_leading_zero_versions_are_unsupported() {
    let cases = [
        ("create-example@1.2.3 other@2.0.0", UnsupportedSpecCategory::MultipleSpecs),
        ("create-example@01.2.3", UnsupportedSpecCategory::VersionRange),
        ("create-example@1.2.3-01", UnsupportedSpecCategory::VersionRange),
        ("@scope/a/b@1.2.3", UnsupportedSpecCategory::Other),
        ("pkg.git", UnsupportedSpecCategory::GitUrl),
        ("C:tmp@1.2.3", UnsupportedSpecCategory::LocalPath),
        ("@scope/create-example", UnsupportedSpecCategory::UnversionedName),
    ];
    for (raw, expected) in cases {
        match classify_package_spec(raw) {
            PackageSpecParse::Unsupported(u) => assert_eq!(u.category, expected, "{raw}"),
            other => panic!("{raw}: {other:?}"),
        }
    }
}

#[test]
fn surrounding_whitespace_is_trimmed_before_classification() {
    match classify_package_spec("  create-example@1.2.3-rc.1+build.5 \n") {
        PackageSpecParse::Supported(spec) => {
            assert_eq!(spec.raw, "create-example@1.2.3-rc.1+build.5");
            assert_eq!(spec.version, "1.2.3-rc.1+build.5");
        }
        other => panic!("{other:?}"),
    }
}
