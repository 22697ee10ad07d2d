use flate2::write::GzEncoder;
use flate2::Compression;
use safe_npx::contracts::ArtifactIdentity;
use safe_npx::extraction::{
    extract_package_optional_evidence, extract_verified_root_artifact, normalize_archive_path,
    ExtractionErrorReason,
};
use safe_npx::evidence::PackageOptionalEvidence;
use std::io::Write;
use tar::{Builder, EntryType, Header};

fn bin_path<'a>(bins: &'a [(String, String)], name: &str) -> Option<&'a str> {
    bins.iter().find(|(k, _)| k == name).map(|(_, v)| v.as_str())
}

#[test]
fn extracts_normal_package_metadata_tied_to_artifact_identity() {
    let tarball = tgz_with_files(&[(
        "package/package.json",
        r#"{
            "name": "create-example",
            "version": "1.2.3",
            "bin": {"create-example": "bin/create.js"},
            "scripts": {"postinstall": "node postinstall.js", "test": "node test.js"},
            "dependencies": {"left-pad": "^1.3.0"}
        }"#,
    )]);
    let artifact = artifact_identity();

    let extracted = extract_verified_root_artifact(&tarball, artifact.clone()).expect("normal package should extract");

    assert_eq!(extracted.artifact, artifact);
    assert_eq!(extracted.metadata.name.as_deref(), Some("create-example"));
    assert_eq!(extracted.metadata.version.as_deref(), Some("1.2.3"));
    assert_eq!(bin_path(&extracted.metadata.bins, "create-example"), Some("bin/create.js"));
    assert_eq!(
        extracted.metadata.lifecycle_scripts.iter().find(|(k, _)| k == "postinstall").map(|(_, v)| v.as_str()),
        Some("node postinstall.js")
    );
    assert_eq!(extracted.metadata.lifecycle_scripts.len(), 1);
    assert_eq!(extracted.metadata.dependency_declarations.len(), 1);
    assert_eq!(extracted.metadata.package_json_path, "package/package.json");
    assert_eq!(extracted.file_count, 1);
    assert_eq!(extracted.artifact_size_bytes, tarball.len());
}

#[test]
fn rejects_path_traversal_entries() {
    let tarball = tgz_with_raw_file_path("../escape.txt", b"escape");

    let error = extract_verified_root_artifact(&tarball, artifact_identity()).expect_err("traversal should fail");

    assert_eq!(error.reason, ExtractionErrorReason::UnsafePath);
}

#[test]
fn rejects_symlink_escape_attempt() {
    let tarball = tgz_with_symlink("package/link", "../escape");

    let error = extract_verified_root_artifact(&tarball, artifact_identity()).expect_err("symlink escape should fail");

    assert_eq!(error.reason, ExtractionErrorReason::UnsafeLink);
}

#[test]
fn rejects_missing_package_json() {
    let tarball = tgz_with_files(&[("package/README.md", "readme")]);

    let error = extract_verified_root_artifact(&tarball, artifact_identity()).expect_err("missing package.json should fail");

    assert_eq!(error.reason, ExtractionErrorReason::MissingPackageJson);
}

#[test]
fn rejects_malformed_package_json() {
    let tarball = tgz_with_files(&[("package/package.json", "{not-json")]);

    let error = extract_verified_root_artifact(&tarball, artifact_identity()).expect_err("malformed package.json should fail");

    assert_eq!(error.reason, ExtractionErrorReason::MalformedPackageJson);
}

#[test]
fn string_bin_uses_unscoped_package_name() {
    let tarball = tgz_with_files(&[(
        "package/package.json",
        r#"{"name":"@scope/create-example","version":"1.2.3","bin":"cli.js"}"#,
    )]);

    let extracted = extract_verified_root_artifact(&tarball, scoped_artifact_identity()).expect("scoped package should extract");

    assert_eq!(bin_path(&extracted.metadata.bins, "create-example"), Some("cli.js"));
}

#[test]
fn rejects_bytes_that_are_not_a_gzip_tarball() {
    let error = extract_verified_root_artifact(b"not-a-tarball", artifact_identity()).expect_err("garbage should fail");
    assert_eq!(error.reason, ExtractionErrorReason::InvalidArchive);
}

#[test]
fn archive_paths_are_normalized_or_refused() {
    assert_eq!(normalize_archive_path("package//bin/create.js"), Ok("package/bin/create.js".to_string()));
    assert!(normalize_archive_path("/etc/passwd").is_err());
    assert!(normalize_archive_path("package/../../escape").is_err());
    assert!(normalize_archive_path("./package/x").is_err());
    assert!(normalize_archive_path("package\\x").is_err());
    assert!(normalize_archive_path("C:x").is_err());
    assert_eq!(normalize_archive_path(""), Err("archive path was empty".to_string()));
}

#[test]
fn extracts_optional_package_evidence() {
    let evidence = extract_package_optional_evidence(
        r#"{
            "repository": {"url": "https://github.com/example/create-example"},
            "license": "Apache-2.0",
            "maintainers": [{"name": "Alice", "email": "alice@example.test"}],
            "attestations": [{"predicateType": "fixture"}]
        }"#,
    );

    assert_eq!(evidence.repository, Some("https://github.com/example/create-example".to_string()));
    assert_eq!(evidence.license, Some("Apache-2.0".to_string()));
    assert_eq!(evidence.maintainers[0].name, Some("Alice".to_string()));
    assert!(evidence.provenance.iter().any(|(k, _)| k == "attestations"));
}

#[test]
fn ignores_malformed_optional_package_evidence() {
    let evidence = extract_package_optional_evidence(
        r#"{
            "repository": 12,
            "license": [],
            "maintainers": "nobody",
            "provenance": null,
            "attestations": "bad",
            "signatures": 12
        }"#,
    );

    assert_eq!(evidence, PackageOptionalEvidence::default());
}

fn tgz_with_files(files: &[(&str, &str)]) -> Vec<u8> {
    let mut tarball = Vec::new();
    {
        let encoder = GzEncoder::new(&mut tarball, Compression::default());
        let mut builder = Builder::new(encoder);
        for (path, contents) in files {
            append_file(&mut builder, path, contents.as_bytes());
        }
        builder.into_inner().expect("tar builder should finish").finish().expect("gzip should finish");
    }
    tarball
}

fn tgz_with_raw_file_path(path: &str, contents: &[u8]) -> Vec<u8> {
    let mut tarball = Vec::new();
    {
        let mut encoder = GzEncoder::new(&mut tarball, Compression::default());
        encoder.write_all(&raw_tar_file(path, contents)).expect("raw tar should gzip");
        encoder.finish().expect("gzip encoder should finish");
    }
    tarball
}

fn raw_tar_file(path: &str, contents: &[u8]) -> Vec<u8> {
    let mut archive = Vec::new();
    let mut header = [0_u8; 512];

    write_bytes(&mut header[0..100], path.as_bytes());
    write_octal(&mut header[100..108], 0o644);
    write_octal(&mut header[108..116], 0);
    write_octal(&mut header[116..124], 0);
    write_octal(&mut header[124..136], contents.len() as u64);
    write_octal(&mut header[136..148], 0);
    header[148..156].fill(b' ');
    header[156] = b'0';
    write_bytes(&mut header[257..263], b"ustar\0");
    write_bytes(&mut header[263..265], b"00");
    let checksum = header.iter().map(|byte| *byte as u32).sum::<u32>();
    write_octal(&mut header[148..156], checksum as u64);

    archive.extend_from_slice(&header);
    archive.extend_from_slice(contents);
    let padding = (512 - (contents.len() % 512)) % 512;
    archive.extend(std::iter::repeat(0).take(padding));
    archive.extend_from_slice(&[0_u8; 1024]);
    archive
}

fn tgz_with_symlink(path: &str, target: &str) -> Vec<u8> {
    let mut tarball = Vec::new();
    {
        let encoder = GzEncoder::new(&mut tarball, Compression::default());
        let mut builder = Builder::new(encoder);
        let mut header = Header::new_gnu();
        header.set_entry_type(EntryType::Symlink);
        header.set_size(0);
        header.set_cksum();
        builder.append_link(&mut header, path, target).expect("symlink should append");
        builder.into_inner().expect("tar builder should finish").finish().expect("gzip should finish");
    }
    tarball
}

fn append_file(builder: &mut Builder<GzEncoder<&mut Vec<u8>>>, path: &str, contents: &[u8]) {
    let mut header = Header::new_gnu();
    header.set_size(contents.len() as u64);
    header.set_mode(0o644);
    header.set_cksum();
    builder.append_data(&mut header, path, contents).expect("file should append");
}

fn write_bytes(field: &mut [u8], value: &[u8]) {
    field[..value.len()].copy_from_slice(value);
}

fn write_octal(field: &mut [u8], value: u64) {
    let encoded = format!("{value:0width$o}\0", width = field.len() - 1);
    field.copy_from_slice(encoded.as_bytes());
}

fn artifact_identity() -> ArtifactIdentity {
    ArtifactIdentity {
        name: "create-example".to_string(),
        version: "1.2.3".to_string(),
        integrity: "sha512-fixture".to_string(),
        digest_algorithm: "sha512".to_string(),
        digest: "abc123".to_string(),
    }
}

fn scoped_artifact_identity() -> ArtifactIdentity {
    ArtifactIdentity {
        name: "@scope/create-example".to_string(),
        version: "1.2.3".to_string(),
        integrity: "sha512-fixture".to_string(),
        digest_algorithm: "sha512".to_string(),
        digest: "abc123".to_string(),
    }
}

#[test]
fn optional_evidence_keeps_provenance_as_compact_json() {
    let evidence = extract_package_optional_evidence(
        r#"{"signatures": [ {"keyid": "k"} ], "provenance": {"a": 1}, "repository": "github:example/x"}"#,
    );
    assert_eq!(evidence.repository, Some("github:example/x".to_string()));
    assert_eq!(
        evidence.provenance,
        vec![
            ("provenance".to_string(), r#"{"a":1}"#.to_string()),
            ("signatures".to_string(), r#"[{"keyid":"k"}]"#.to_string()),
        ]
    );
}

fn tgz_with_dir_then_file(dir: &str, file: &str, contents: &str) -> Vec<u8> {
    let mut tarball = Vec::new();
    {
        let encoder = GzEncoder::new(&mut tarball, Compression::default());
        let mut builder = Builder::new(encoder);
        let mut header = Header::new_gnu();
        header.set_entry_type(EntryType::Directory);
        header.set_size(0);
        header.set_mode(0o755);
        header.set_cksum();
        builder.append_data(&mut header, dir, std::io::empty()).expect("directory should append");
        append_file(&mut builder, file, contents.as_bytes());
        builder.into_inner().expect("tar builder should finish").finish().expect("gzip should finish");
    }
    tarball
}

#[test]
fn refuses_a_file_that_would_have_to_be_a_directory() {
    let tarball = tgz_with_files(&[("package", "plain file"), ("package/package.json", "{}")]);

    let error = extract_verified_root_artifact(&tarball, artifact_identity()).expect_err("file parent should fail");

    assert_eq!(error.reason, ExtractionErrorReason::InvalidArchive);
    assert_eq!(error.detail, "could not create parent directory of \"package/package.json\"");
}

#[test]
fn refuses_a_file_written_over_a_directory() {
    let tarball = tgz_with_dir_then_file("package/package.json/", "package/package.json", "{}");

    let error = extract_verified_root_artifact(&tarball, artifact_identity()).expect_err("file over directory should fail");

    assert_eq!(error.reason, ExtractionErrorReason::InvalidArchive);
    assert_eq!(error.detail, "could not write archive file \"package/package.json\"");
}

#[test]
fn refuses_a_file_written_over_an_implied_directory() {
    let tarball = tgz_with_files(&[("package/bin/cli.js", "x"), ("package/bin", "y"), ("package/package.json", "{}")]);

    let error = extract_verified_root_artifact(&tarball, artifact_identity()).expect_err("file over directory should fail");

    assert_eq!(error.reason, ExtractionErrorReason::InvalidArchive);
    assert_eq!(error.detail, "could not write archive file \"package/bin\"");
}

#[test]
fn later_file_at_the_same_path_replaces_the_earlier_one() {
    let tarball = tgz_with_files(&[
        ("package/package.json", r#"{"name":"first","version":"1.0.0"}"#),
        ("package/package.json", r#"{"name":"create-example","version":"1.2.3"}"#),
    ]);

    let extracted = extract_verified_root_artifact(&tarball, artifact_identity()).expect("rewrite should extract");

    assert_eq!(extracted.metadata.name.as_deref(), Some("create-example"));
    assert_eq!(extracted.file_count, 2);
}

#[test]
fn refuses_a_directory_where_a_file_stands() {
    let mut tarball = Vec::new();
    {
        let encoder = GzEncoder::new(&mut tarball, Compression::default());
        let mut builder = Builder::new(encoder);
        append_file(&mut builder, "package/package.json", b"{}");
        let mut header = Header::new_gnu();
        header.set_entry_type(EntryType::Directory);
        header.set_size(0);
        header.set_mode(0o755);
        header.set_cksum();
        builder.append_data(&mut header, "package/package.json/", std::io::empty()).expect("directory should append");
        builder.into_inner().expect("tar builder should finish").finish().expect("gzip should finish");
    }

    let error = extract_verified_root_artifact(&tarball, artifact_identity()).expect_err("directory over file should fail");

    assert_eq!(error.reason, ExtractionErrorReason::InvalidArchive);
    assert_eq!(error.detail, "could not create directory \"package/package.json\"");
}
