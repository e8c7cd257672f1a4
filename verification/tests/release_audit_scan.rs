use meshh_tui::release_audit::{
    ReleaseAuditConfig, ReleaseAuditViolationKind, contains_aws_access_key, contains_bounded_token,
    find_file_violations, is_identifier_byte,
};

#[test]
fn internal_identifier_fields_must_be_bounded_tokens() {
    let config = ReleaseAuditConfig::default();
    let internal_field = ["destination", "id"].join("_");
    let contents = format!(
        "public_delivery_id is safe\n\
         internal_ids in prose are safe\n\
         {{\"{internal_field}\":\"dest_123\"}}\n"
    );

    let violations = find_file_violations(&config, "fixture.rs", &contents);

    assert_eq!(violations.len(), 1);
    assert_eq!(violations[0].line(), 3);
    assert!(matches!(
        violations[0].kind(),
        ReleaseAuditViolationKind::InternalIdentifierField { field }
            if field == &internal_field
    ));
}

#[test]
fn detects_sensitive_values_and_local_paths() {
    let config = ReleaseAuditConfig::default();
    let api_key = ["s", "k", "-", "example"].concat();
    let local_path = ["/", "Users", "/", "alice", "/", "mesh"].concat();
    let contents = format!("{api_key}\n{local_path}\n");

    let violations = find_file_violations(&config, "fixture.txt", &contents);

    assert_eq!(violations.len(), 2);
    assert!(matches!(
        violations[0].kind(),
        ReleaseAuditViolationKind::SensitiveValue { .. }
    ));
    assert!(matches!(
        violations[1].kind(),
        ReleaseAuditViolationKind::LocalOnlyPath { .. }
    ));
}

#[test]
fn aws_access_keys_are_detected_by_shape() {
    let key = ["AKIA", "ABCDEFGHIJ234567"].concat();
    assert!(contains_aws_access_key(format!("key = {key};").as_bytes()));
    let short = ["AKIA", "ABCDEFGHIJ23456"].concat();
    assert!(!contains_aws_access_key(short.as_bytes()));
    let lower = ["ASIA", "abcdefghij234567"].concat();
    assert!(!contains_aws_access_key(lower.as_bytes()));

    let config = ReleaseAuditConfig::default();
    let violations = find_file_violations(&config, "keys.txt", &format!("x\n{key}\n"));
    assert_eq!(violations.len(), 1);
    assert_eq!(violations[0].line(), 2);
    assert_eq!(
        violations[0].text(),
        "keys.txt:2: sensitive value: AWS access key"
    );
}

#[test]
fn bounded_tokens_need_identifier_boundaries() {
    assert!(contains_bounded_token(b"a route_id b", b"route_id"));
    assert!(contains_bounded_token(b"route_id", b"route_id"));
    assert!(!contains_bounded_token(b"xroute_id", b"route_id"));
    assert!(!contains_bounded_token(b"route_ids", b"route_id"));
    assert!(!contains_bounded_token(b"route_id", b""));
    assert!(is_identifier_byte(b'_'));
    assert!(!is_identifier_byte(b'-'));
}
