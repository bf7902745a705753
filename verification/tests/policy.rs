use iamlint::policy::parse_policy;

#[test]
fn parses_action_and_resource_as_bare_strings() {
    let content = r#"{
        "Version": "2012-10-17",
        "Statement": {
            "Effect": "Allow",
            "Action": "s3:GetObject",
            "Resource": "arn:aws:s3:::my-bucket/*"
        }
    }"#;
    let policy = parse_policy(content).unwrap();
    assert_eq!(policy.statements.len(), 1);
    assert_eq!(policy.statements[0].actions, vec!["s3:GetObject"]);
    assert_eq!(
        policy.statements[0].resources,
        vec!["arn:aws:s3:::my-bucket/*"]
    );
}

#[test]
fn parses_action_and_resource_as_arrays() {
    let content = r#"{
        "Version": "2012-10-17",
        "Statement": [{
            "Sid": "Multi",
            "Effect": "Allow",
            "Action": ["s3:GetObject", "s3:PutObject"],
            "Resource": ["arn:aws:s3:::a/*", "arn:aws:s3:::b/*"]
        }]
    }"#;
    let policy = parse_policy(content).unwrap();
    let stmt = &policy.statements[0];
    assert_eq!(stmt.sid.as_deref(), Some("Multi"));
    assert_eq!(stmt.actions.len(), 2);
    assert_eq!(stmt.resources.len(), 2);
}

#[test]
fn missing_resource_key_is_recorded_as_absent_not_empty() {
    let content = r#"{
        "Version": "2012-10-17",
        "Statement": [{"Effect": "Allow", "Action": "iam:*"}]
    }"#;
    let policy = parse_policy(content).unwrap();
    assert!(!policy.statements[0].resource_present);
    assert!(policy.statements[0].resources.is_empty());
}

#[test]
fn condition_object_with_content_is_meaningful() {
    let content = r#"{
        "Version": "2012-10-17",
        "Statement": [{
            "Effect": "Allow",
            "Action": "iam:PassRole",
            "Resource": "*",
            "Condition": {"StringEquals": {"iam:PassedToService": "ec2.amazonaws.com"}}
        }]
    }"#;
    let policy = parse_policy(content).unwrap();
    assert!(policy.statements[0].has_condition);
}

#[test]
fn empty_condition_object_is_not_meaningful() {
    let content = r#"{
        "Version": "2012-10-17",
        "Statement": [{"Effect": "Allow", "Action": "iam:*", "Resource": "*", "Condition": {}}]
    }"#;
    let policy = parse_policy(content).unwrap();
    assert!(!policy.statements[0].has_condition);
}

#[test]
fn principal_is_captured_raw_for_later_wildcard_inspection() {
    let content = r#"{
        "Version": "2012-10-17",
        "Statement": [{
            "Effect": "Allow",
            "Principal": {"AWS": "*"},
            "Action": "s3:GetObject",
            "Resource": "arn:aws:s3:::bucket/*"
        }]
    }"#;
    let policy = parse_policy(content).unwrap();
    assert!(policy.statements[0].principal.is_some());
}

#[test]
fn missing_statement_key_is_a_clean_error() {
    let content = r#"{"Version": "2012-10-17"}"#;
    assert!(parse_policy(content).is_err());
}

#[test]
fn missing_effect_is_a_clean_error() {
    let content =
        r#"{"Version": "2012-10-17", "Statement": [{"Action": "*", "Resource": "*"}]}"#;
    assert!(parse_policy(content).is_err());
}

#[test]
fn malformed_json_is_a_clean_error() {
    assert!(parse_policy("not json at all {{{").is_err());
}

#[test]
fn notaction_and_notresource_are_captured() {
    let content = r#"{
        "Version": "2012-10-17",
        "Statement": [{
            "Effect": "Allow",
            "NotAction": "iam:*",
            "NotResource": "arn:aws:s3:::protected/*"
        }]
    }"#;
    let policy = parse_policy(content).unwrap();
    let stmt = &policy.statements[0];
    assert!(stmt.actions.is_empty());
    assert_eq!(stmt.not_actions, vec!["iam:*"]);
    assert!(stmt.not_resource_present);
}
