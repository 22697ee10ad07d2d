use safe_npx::package_metadata::PackageBundledDependencies;

fn pairs(items: &[(&str, &str)]) -> Vec<(String, String)> {
    items.iter().map(|(k, v)| (k.to_string(), v.to_string())).collect()
}

#[test]
fn missing_and_unset_bundled_dependencies_declare_nothing() {
    assert!(PackageBundledDependencies::Missing.into_declarations().is_empty());
    assert!(PackageBundledDependencies::Flag(false).into_declarations().is_empty());
    assert!(PackageBundledDependencies::default().into_declarations().is_empty());
}

#[test]
fn bundled_flag_declares_the_wildcard() {
    assert_eq!(PackageBundledDependencies::Flag(true).into_declarations(), pairs(&[("*", "bundled")]));
}

#[test]
fn bundled_names_are_declared_in_name_order_once_each() {
    let names = vec!["zeta".to_string(), "alpha".to_string(), "zeta".to_string(), "@scope/pkg".to_string()];
    assert_eq!(
        PackageBundledDependencies::Names(names).into_declarations(),
        pairs(&[("@scope/pkg", "bundled"), ("alpha", "bundled"), ("zeta", "bundled")])
    );
}

#[test]
fn bundled_entries_keep_requirements_and_the_last_duplicate() {
    let entries = pairs(&[("b", "1.0.0"), ("a", "2.0.0"), ("b", "3.0.0")]);
    assert_eq!(
        PackageBundledDependencies::Entries(entries).into_declarations(),
        pairs(&[("a", "2.0.0"), ("b", "3.0.0")])
    );
}
