use iamlint::glob::glob_match;
use iamlint::policy::parse_policy;
use iamlint::rules::{has_blocking_findings, lint, Finding, Severity};

fn lint_str(content: &str) -> Vec<Finding> {
    lint(&parse_policy(content).unwrap())
}

#[test]
fn glob_match_handles_star_and_question_mark() {
    assert!(glob_match("*", "anything"));
    assert!(glob_match("iam:*", "iam:CreateUser"));
    assert!(!glob_match("iam:*", "s3:GetObject"));
    assert!(glob_match("s3:Get?bject", "s3:GetObject"));
    assert!(glob_match("IAM:*", "iam:createuser"), "case-insensitive");
}

#[test]
fn action_and_resource_wildcard_is_critical() {
    let findings = lint_str(
        r#"{"Version":"2012-10-17","Statement":[
            {"Effect":"Allow","Action":"*","Resource":"*"}
        ]}"#,
    );
    assert!(findings
        .iter()
        .any(|f| f.rule == "wildcard-action" && f.severity == Severity::Critical));
}

#[test]
fn action_wildcard_scoped_to_resource_is_high_not_critical() {
    let findings = lint_str(
        r#"{"Version":"2012-10-17","Statement":[
            {"Effect":"Allow","Action":"*","Resource":"arn:aws:s3:::my-bucket/*"}
        ]}"#,
    );
    let f = findings
        .iter()
        .find(|f| f.rule == "wildcard-action")
        .expect("expected a wildcard-action finding");
    assert_eq!(f.severity, Severity::High);
}

#[test]
fn sensitive_action_without_condition_is_flagged() {
    let findings = lint_str(
        r#"{"Version":"2012-10-17","Statement":[
            {"Effect":"Allow","Action":"s3:DeleteBucket","Resource":"arn:aws:s3:::prod-data"}
        ]}"#,
    );
    assert!(findings
        .iter()
        .any(|f| f.rule == "sensitive-action-no-condition"));
}

#[test]
fn sensitive_action_with_real_condition_is_not_flagged() {
    let findings = lint_str(
        r#"{"Version":"2012-10-17","Statement":[
            {"Effect":"Allow","Action":"iam:PassRole","Resource":"arn:aws:iam::123456789012:role/app-role",
             "Condition":{"StringEquals":{"iam:PassedToService":"ec2.amazonaws.com"}}}
        ]}"#,
    );
    assert!(!findings
        .iter()
        .any(|f| f.rule == "sensitive-action-no-condition"));
}

#[test]
fn iam_star_action_is_flagged_as_sensitive_even_without_wildcard_resource() {
    let findings = lint_str(
        r#"{"Version":"2012-10-17","Statement":[
            {"Effect":"Allow","Action":"iam:*","Resource":"arn:aws:iam::123456789012:role/app-role"}
        ]}"#,
    );
    assert!(findings
        .iter()
        .any(|f| f.rule == "sensitive-action-no-condition"));
}

#[test]
fn wildcard_principal_string_is_critical() {
    let findings = lint_str(
        r#"{"Version":"2012-10-17","Statement":[
            {"Effect":"Allow","Principal":"*","Action":"s3:GetObject","Resource":"arn:aws:s3:::bucket/*"}
        ]}"#,
    );
    assert!(findings
        .iter()
        .any(|f| f.rule == "wildcard-principal" && f.severity == Severity::Critical));
}

#[test]
fn wildcard_principal_aws_object_is_critical() {
    let findings = lint_str(
        r#"{"Version":"2012-10-17","Statement":[
            {"Effect":"Allow","Principal":{"AWS":"*"},"Action":"s3:GetObject","Resource":"arn:aws:s3:::bucket/*"}
        ]}"#,
    );
    assert!(findings.iter().any(|f| f.rule == "wildcard-principal"));
}

#[test]
fn scoped_principal_is_not_flagged() {
    let findings = lint_str(
        r#"{"Version":"2012-10-17","Statement":[
            {"Effect":"Allow","Principal":{"AWS":"arn:aws:iam::123456789012:root"},
             "Action":"s3:GetObject","Resource":"arn:aws:s3:::bucket/*"}
        ]}"#,
    );
    assert!(!findings.iter().any(|f| f.rule == "wildcard-principal"));
}

#[test]
fn bare_notaction_statement_does_not_also_emit_a_confusing_empty_action_finding() {
    // A statement with only NotAction (no Action key) has nothing in
    // `actions` to judge as "safe read-only" — this must not produce
    // an unconstrained-resource finding listing an empty action set;
    // notaction-with-allow already names the real risk here.
    let findings = lint_str(
        r#"{"Version":"2012-10-17","Statement":[
            {"Effect":"Allow","NotAction":"iam:*","Resource":"*"}
        ]}"#,
    );
    assert!(!findings.iter().any(|f| f.rule == "unconstrained-resource"));
    assert!(findings.iter().any(|f| f.rule == "notaction-with-allow"));
}

#[test]
fn notaction_with_allow_is_flagged() {
    let findings = lint_str(
        r#"{"Version":"2012-10-17","Statement":[
            {"Effect":"Allow","NotAction":"iam:*","Resource":"*"}
        ]}"#,
    );
    assert!(findings.iter().any(|f| f.rule == "notaction-with-allow"));
}

#[test]
fn notresource_with_allow_is_flagged() {
    let findings = lint_str(
        r#"{"Version":"2012-10-17","Statement":[
            {"Effect":"Allow","Action":"s3:GetObject","NotResource":"arn:aws:s3:::protected/*"}
        ]}"#,
    );
    assert!(findings.iter().any(|f| f.rule == "notresource-with-allow"));
}

#[test]
fn deny_statements_are_never_flagged() {
    let findings = lint_str(
        r#"{"Version":"2012-10-17","Statement":[
            {"Effect":"Deny","Action":"*","Resource":"*","Principal":"*","NotAction":"s3:*"}
        ]}"#,
    );
    assert!(
        findings.is_empty(),
        "Deny statements are restrictions, never a permission risk"
    );
}

#[test]
fn describe_action_with_wildcard_resource_is_not_flagged() {
    // ec2:DescribeInstances is a real AWS action that *requires*
    // Resource: "*" — there is no resource-level ARN for it. This
    // must not trip unconstrained-resource.
    let findings = lint_str(
        r#"{"Version":"2012-10-17","Statement":[
            {"Effect":"Allow","Action":"ec2:DescribeInstances","Resource":"*"}
        ]}"#,
    );
    assert!(findings.is_empty());
}

#[test]
fn mixed_describe_and_mutating_action_with_wildcard_resource_is_flagged() {
    let findings = lint_str(
        r#"{"Version":"2012-10-17","Statement":[
            {"Effect":"Allow","Action":["ec2:DescribeInstances","ec2:TerminateInstances"],"Resource":"*"}
        ]}"#,
    );
    assert!(findings.iter().any(|f| f.rule == "unconstrained-resource"));
}

#[test]
fn a_genuinely_safe_least_privilege_policy_produces_zero_findings() {
    let content = r#"{
        "Version": "2012-10-17",
        "Statement": [
            {
                "Sid": "ReadOwnObjects",
                "Effect": "Allow",
                "Action": ["s3:GetObject", "s3:ListBucket"],
                "Resource": [
                    "arn:aws:s3:::my-app-bucket",
                    "arn:aws:s3:::my-app-bucket/${aws:username}/*"
                ]
            },
            {
                "Sid": "DescribeOwnInstances",
                "Effect": "Allow",
                "Action": "ec2:DescribeInstances",
                "Resource": "*"
            },
            {
                "Sid": "PassRoleToECSOnly",
                "Effect": "Allow",
                "Action": "iam:PassRole",
                "Resource": "arn:aws:iam::123456789012:role/ecs-task-role",
                "Condition": {
                    "StringEquals": {"iam:PassedToService": "ecs-tasks.amazonaws.com"}
                }
            }
        ]
    }"#;
    let findings = lint_str(content);
    assert!(
        findings.is_empty(),
        "a real least-privilege policy must not be flagged, but got: {findings:?}"
    );
}

#[test]
fn has_blocking_findings_is_true_only_for_high_or_critical() {
    let only_medium = vec![Finding {
        statement_index: 0,
        sid: None,
        rule: "unconstrained-resource",
        severity: Severity::Medium,
        message: String::new(),
    }];
    assert!(!has_blocking_findings(&only_medium));

    let with_high = vec![Finding {
        statement_index: 0,
        sid: None,
        rule: "wildcard-action",
        severity: Severity::High,
        message: String::new(),
    }];
    assert!(has_blocking_findings(&with_high));
}

#[test]
fn missing_resource_key_on_allow_is_treated_as_unconstrained() {
    let findings = lint_str(
        r#"{"Version":"2012-10-17","Statement":[
            {"Effect":"Allow","Action":"s3:PutObject"}
        ]}"#,
    );
    assert!(findings.iter().any(|f| f.rule == "unconstrained-resource"));
}
