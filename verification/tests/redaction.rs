use safe_npx::redaction::{digest_report_key, redact_report_value, redact_report_values, secret_key_name};
use sha2::Digest;

#[test]
fn url_userinfo_and_secret_query_values_are_redacted() {
    assert_eq!(
        redact_report_value("https://secret-token@registry.example.test/npm/", None),
        "https://<redacted>@registry.example.test/npm/"
    );
    let redacted = redact_report_value(
        "https://secret-token@registry.example.test/npm/?_authToken=secret-token",
        None,
    );
    assert_eq!(
        redacted,
        "https://<redacted>@registry.example.test/npm/?_authToken=<redacted>"
    );
    assert!(!redacted.contains("secret-token"));
}

#[test]
fn query_pairs_keep_fragment_and_plain_pairs() {
    assert_eq!(
        redact_report_value("https://example.test/x?ok=1&apiKey#frag", None),
        "https://example.test/x?ok=1&apiKey#frag"
    );
    assert_eq!(
        redact_report_value("https://example.test/x?ok=1&access_key#frag", None),
        "https://example.test/x?ok=1&<redacted>#frag"
    );
}

#[test]
fn authorization_and_secret_lines_are_redacted_keeping_indentation() {
    assert_eq!(
        redact_report_value("Authorization: Bearer abc\n  password: hunter2\nplain\n", None),
        "Authorization: <redacted>\n  password: <redacted>\nplain\n"
    );
    assert_eq!(redact_report_value("AUTHORIZATION: x", None), "Authorization: <redacted>");
}

#[test]
fn embedded_npmrc_token_is_redacted() {
    assert_eq!(
        redact_report_value("--config=//registry.example.test/:_authToken=secret-token", None),
        "--config=//registry.example.test/:_authToken=<redacted>"
    );
    assert_eq!(
        redact_report_value("a PASSWORD=x b", None),
        "a PASSWORD=<redacted>"
    );
    assert_eq!(
        redact_report_value("url?x=1;Token=abc def", None),
        "url?x=1;Token=<redacted> def"
    );
}

#[test]
fn home_paths_are_redacted() {
    assert_eq!(
        redact_report_value("/Users/alice/private/pkg", None),
        "<home>/private/pkg"
    );
    assert_eq!(redact_report_value("cd /home/bob && ls", None), "cd <home> && ls");
    assert_eq!(
        redact_report_value("/Users/alice/project/create-example@1.2.3", Some("/Users/alice")),
        "<home>/project/create-example@1.2.3"
    );
    assert_eq!(
        redact_report_value("/srv/alice/x", Some("/srv/alice")),
        "<home>/x"
    );
}

#[test]
fn argument_after_secret_flag_is_redacted_and_shape_is_kept() {
    let values = vec![
        "--token".to_string(),
        "secret-token".to_string(),
        "--cwd".to_string(),
        "/Users/alice/private/project".to_string(),
        "--password=secret-token".to_string(),
        "--config=//registry.example.test/:_authToken=secret-token".to_string(),
    ];
    let redacted = redact_report_values(&values, None);
    assert_eq!(
        redacted,
        vec![
            "--token".to_string(),
            "<redacted>".to_string(),
            "--cwd".to_string(),
            "<home>/private/project".to_string(),
            "--password=<redacted>".to_string(),
            "--config=//registry.example.test/:_authToken=<redacted>".to_string(),
        ]
    );
    assert_eq!(redacted.len(), values.len());
}

#[test]
fn secret_key_names_are_recognised() {
    assert!(secret_key_name("NPM_TOKEN"));
    assert!(secret_key_name("Key"));
    assert!(secret_key_name("api-key"));
    assert!(secret_key_name("aws_secret"));
    assert!(!secret_key_name("keyboard"));
    assert!(!secret_key_name("cwd"));
}

#[test]
fn digest_key_is_sha256_of_label_and_value() {
    let expected = format!("sha256:{:x}", sha2::Sha256::digest(b"command:create-example@1.2.3"));
    assert_eq!(digest_report_key("command", "create-example@1.2.3"), expected);
    assert_ne!(
        digest_report_key("command", "create-example@1.2.3"),
        digest_report_key("registry", "create-example@1.2.3")
    );
}
