use iamlint::json::{Json, Member};
use iamlint::policy::{
    condition_is_meaningful, parse_policy, policy_from_json, string_list, Policy, Statement,
};
use iamlint::report::{count_findings, render_report};
use iamlint::rules::{
    has_blocking_findings, is_allow, is_safe_read_action, is_sensitive_action, lint,
    principal_has_wildcard, resource_unconstrained, rule_notaction_with_allow,
    rule_notresource_with_allow,
    rule_sensitive_action_without_condition, rule_unconstrained_resource, rule_wildcard_action,
    Finding, Severity, SENSITIVE_ACTIONS,
};

const DANGEROUS: &str = r#"{
    "Version": "2012-10-17",
    "Statement": [
        {"Sid": "Admin", "Effect": "Allow", "Action": "*", "Resource": "*"},
        {"Effect": "Allow", "Action": "s3:DeleteBucket", "Resource": "arn:aws:s3:::prod-data"},
        {"Effect": "Allow", "Principal": "*", "Action": "s3:GetObject",
         "Resource": "arn:aws:s3:::public/*"},
        {"Effect": "Allow", "NotAction": "iam:*", "Resource": "*"},
        {"Effect": "Allow", "Action": "iam:*",
         "Resource": "arn:aws:iam::123456789012:role/app-role"}
    ]
}"#;

fn text(s: &str) -> Json {
    Json::Text(s.to_string())
}

fn object(members: Vec<(&str, Json)>) -> Json {
    Json::Object(
        members
            .into_iter()
            .map(|(name, value)| Member {
                name: name.to_string(),
                value,
            })
            .collect(),
    )
}

fn lint_text(content: &str) -> Vec<Finding> {
    lint(&parse_policy(content).unwrap())
}

fn rules_of(findings: &[Finding]) -> Vec<&'static str> {
    findings.iter().map(|f| f.rule).collect()
}

fn allow(actions: &[&str]) -> Statement {
    Statement {
        effect: "Allow".to_string(),
        actions: actions.iter().map(|a| a.to_string()).collect(),
        ..Statement::default()
    }
}

fn severity(s: Severity) -> Finding {
    Finding {
        statement_index: 0,
        sid: None,
        rule: "wildcard-action",
        severity: s,
        message: String::new(),
    }
}

#[test]
fn a_dangerous_policy_has_six_findings() {
    let findings = lint_text(DANGEROUS);
    let found: Vec<(usize, &str, Severity)> = findings
        .iter()
        .map(|f| (f.statement_index, f.rule, f.severity))
        .collect();
    assert_eq!(
        found,
        vec![
            (0, "wildcard-action", Severity::Critical),
            (0, "sensitive-action-no-condition", Severity::High),
            (1, "sensitive-action-no-condition", Severity::High),
            (2, "wildcard-principal", Severity::Critical),
            (3, "notaction-with-allow", Severity::High),
            (4, "sensitive-action-no-condition", Severity::High),
        ]
    );
    assert_eq!(findings[0].sid.as_deref(), Some("Admin"));
    assert!(findings[2].sid.is_none());
    assert!(has_blocking_findings(&findings));
}

#[test]
fn statements_are_judged_one_by_one() {
    let policy = parse_policy(DANGEROUS).unwrap();
    let mut alone: Vec<(usize, &str)> = Vec::new();
    for (index, stmt) in policy.statements.iter().enumerate() {
        let single = Policy {
            version: None,
            statements: vec![stmt.clone()],
        };
        alone.extend(lint(&single).iter().map(|f| (index, f.rule)));
    }
    let together: Vec<(usize, &str)> = lint(&policy)
        .iter()
        .map(|f| (f.statement_index, f.rule))
        .collect();
    assert_eq!(alone, together);
}

#[test]
fn the_messages_are_exact() {
    let findings = lint_text(DANGEROUS);
    assert_eq!(
        findings[0].message,
        "Action: \"*\" combined with an unconstrained Resource (\"*\" or omitted) — \
         equivalent to full administrator access for this statement"
    );
    assert_eq!(
        findings[2].message,
        "Sensitive action(s) [\"s3:DeleteBucket\"] allowed with no Condition — a scoping \
         Condition (e.g. iam:PassedToService, aws:SourceIp, aws:MultiFactorAuthPresent) \
         is the usual guard for actions this broad"
    );
    assert_eq!(
        findings[3].message,
        "Principal: \"*\" (or {\"AWS\": \"*\"}) — any AWS account, or the public \
         internet for an unauthenticated resource policy, can take this action"
    );
    assert_eq!(
        findings[4].message,
        "Effect: Allow combined with NotAction: [\"iam:*\"] grants every action EXCEPT the \
         ones listed — effectively unbounded and grows automatically as AWS adds new APIs"
    );
}

#[test]
fn lists_in_messages_are_quoted_and_escaped() {
    let mut stmt = allow(&["*"]);
    stmt.resource_present = true;
    stmt.resources = vec!["a\"b".to_string(), "c\n".to_string()];
    assert_eq!(
        rule_wildcard_action(3, &stmt).unwrap().message,
        "Action: \"*\" allows every AWS action, even though Resource is scoped to \
         [\"a\\\"b\", \"c\\n\"]"
    );
    stmt.not_resources = vec!["x".to_string()];
    let finding = rule_notresource_with_allow(3, &stmt).unwrap();
    assert_eq!(finding.statement_index, 3);
    assert_eq!(
        finding.message,
        "Effect: Allow combined with NotResource: [\"x\"] grants access to every resource \
         EXCEPT the ones listed"
    );
}

#[test]
fn printable_ascii_is_quoted_unchanged() {
    let plain: String = (' '..='~').filter(|c| *c != '"' && *c != '\\').collect();
    let mut stmt = allow(&[]);
    stmt.not_actions = vec![plain.clone(), String::new()];
    assert_eq!(
        rule_notaction_with_allow(0, &stmt).unwrap().message,
        format!(
            "Effect: Allow combined with NotAction: [\"{plain}\", \"\"] grants every action \
             EXCEPT the ones listed — effectively unbounded and grows automatically as AWS adds \
             new APIs"
        )
    );
}

#[test]
fn findings_on_joined_lists_are_joined() {
    let first = parse_policy(DANGEROUS).unwrap();
    let second = parse_policy(DANGEROUS).unwrap();
    let mut joined = first.clone();
    joined.statements.extend(second.statements.clone());
    let mut expected = lint(&first);
    for mut finding in lint(&second) {
        finding.statement_index += first.statements.len();
        expected.push(finding);
    }
    assert_eq!(format!("{:?}", lint(&joined)), format!("{expected:?}"));
}

#[test]
fn an_unconstrained_resource_is_described() {
    let mut stmt = allow(&["ec2:DescribeInstances", "ec2:RunInstances"]);
    assert_eq!(
        rule_unconstrained_resource(0, &stmt).unwrap().message,
        "no Resource key at all (defaults to unconstrained) for action(s) \
         [\"ec2:DescribeInstances\", \"ec2:RunInstances\"], which are not limited to read-only \
         Describe/Get/List-style verbs that AWS requires \"*\" for"
    );
    stmt.resource_present = true;
    assert!(rule_unconstrained_resource(0, &stmt).is_none());
    stmt.resources = vec!["*".to_string()];
    let finding = rule_unconstrained_resource(0, &stmt).unwrap();
    assert!(finding.message.starts_with("Resource: \"*\" for action(s) ["));
    assert_eq!(finding.severity, Severity::Medium);
}

#[test]
fn a_wildcard_action_is_not_also_an_unconstrained_resource() {
    let stmt = allow(&["*", "ec2:RunInstances"]);
    assert!(rule_wildcard_action(0, &stmt).is_some());
    assert!(rule_unconstrained_resource(0, &stmt).is_none());
}

#[test]
fn the_read_only_exemption_holds_for_the_whole_statement() {
    let exempt = allow(&["ec2:DescribeInstances", "s3:GetObject"]);
    assert!(rule_unconstrained_resource(0, &exempt).is_none());
    let mixed = allow(&["ec2:DescribeInstances", "ec2:TerminateInstances"]);
    assert!(rule_unconstrained_resource(0, &mixed).is_some());
}

#[test]
fn read_only_verbs_follow_the_first_colon_in_any_case() {
    assert!(is_safe_read_action("ec2:DESCRIBEInstances"));
    assert!(is_safe_read_action("s3:HeadBucket"));
    assert!(is_safe_read_action("é:GETÉ") && is_safe_read_action("é:getÉ"));
    assert!(is_safe_read_action("ListBuckets"));
    assert!(is_safe_read_action("a:query:x"));
    assert!(!is_safe_read_action("a:b:query"));
    assert!(!is_safe_read_action("list:CreateUser"));
    assert!(!is_safe_read_action("s3:"));
    assert!(!is_safe_read_action("s3:Ge"));
    assert!(!is_safe_read_action("s3:PutObject"));
}

#[test]
fn every_listed_action_is_sensitive() {
    for action in SENSITIVE_ACTIONS {
        assert!(is_sensitive_action(action));
        assert!(is_sensitive_action(&action.to_uppercase()));
    }
}

#[test]
fn whole_service_grants_are_sensitive() {
    for action in ["*", "iam:*", "sts:*", "organizations:*", "kms:*", "IAM:GetUser", "iam:*User"] {
        assert!(is_sensitive_action(action), "{action}");
    }
    for action in ["s3:GetObject", "ec2:Describe*", "kms:Decrypt", "ia", ""] {
        assert!(!is_sensitive_action(action), "{action}");
    }
}

#[test]
fn only_the_sensitive_actions_are_listed() {
    let stmt = allow(&["s3:GetObject", "KMS:DisableKey", "s3:ListBucket", "iam:PassRole"]);
    let finding = rule_sensitive_action_without_condition(1, &stmt).unwrap();
    assert!(finding
        .message
        .starts_with("Sensitive action(s) [\"KMS:DisableKey\", \"iam:PassRole\"] allowed"));
}

#[test]
fn the_effect_is_compared_in_any_case() {
    let mut stmt = allow(&["*"]);
    stmt.effect = "aLLOW".to_string();
    assert!(is_allow(&stmt));
    for effect in ["Deny", "DENY", "", "Allow ", "Allowed", "A\u{17f}low", "@llow", "Allo7"] {
        stmt.effect = effect.to_string();
        assert!(!is_allow(&stmt));
        let policy = Policy {
            version: None,
            statements: vec![stmt.clone()],
        };
        assert!(lint(&policy).is_empty());
    }
}

#[test]
fn a_present_but_empty_resource_is_constrained() {
    let mut stmt = allow(&["s3:PutObject"]);
    assert!(resource_unconstrained(&stmt));
    stmt.resource_present = true;
    assert!(!resource_unconstrained(&stmt));
    stmt.resources = vec!["arn:aws:s3:::a/*".to_string(), "*".to_string()];
    assert!(resource_unconstrained(&stmt));
}

#[test]
fn principals_with_a_wildcard() {
    assert!(principal_has_wildcard(&text("*")));
    assert!(principal_has_wildcard(&object(vec![("AWS", text("*"))])));
    assert!(principal_has_wildcard(&object(vec![
        ("Service", text("ec2.amazonaws.com")),
        ("AWS", Json::Array(vec![text("arn:aws:iam::1:root"), text("*")])),
    ])));
}

#[test]
fn principals_without_a_wildcard() {
    assert!(!principal_has_wildcard(&text("arn:*")));
    assert!(!principal_has_wildcard(&Json::Null));
    assert!(!principal_has_wildcard(&Json::Array(vec![text("*")])));
    assert!(!principal_has_wildcard(&object(vec![])));
    assert!(!principal_has_wildcard(&object(vec![(
        "AWS",
        object(vec![("AWS", text("*"))])
    )])));
    assert!(!principal_has_wildcard(&object(vec![(
        "AWS",
        Json::Array(vec![Json::Array(vec![text("*")])])
    )])));
}

#[test]
fn a_bare_string_is_a_list_of_one() {
    assert_eq!(string_list(Some(&text("x"))), vec!["x"]);
    assert_eq!(string_list(Some(&Json::Array(vec![text("x")]))), vec!["x"]);
}

#[test]
fn values_that_are_no_strings_are_left_out_of_a_list() {
    let mixed = Json::Array(vec![text("a"), Json::Null, text("b"), Json::Bool(true)]);
    assert_eq!(string_list(Some(&mixed)), vec!["a", "b"]);
    assert!(string_list(Some(&Json::Number("1".to_string()))).is_empty());
    assert!(string_list(None).is_empty());
}

#[test]
fn only_an_object_with_members_is_a_condition() {
    assert!(condition_is_meaningful(Some(&object(vec![("x", Json::Null)]))));
    assert!(!condition_is_meaningful(Some(&object(vec![]))));
    assert!(!condition_is_meaningful(Some(&text("x"))));
    assert!(!condition_is_meaningful(None));
}

#[test]
fn a_bare_statement_is_a_list_of_one() {
    let bare = parse_policy(r#"{"Statement": {"Effect": "Allow", "Action": "*"}}"#).unwrap();
    let list = parse_policy(r#"{"Statement": [{"Effect": "Allow", "Action": "*"}]}"#).unwrap();
    assert_eq!(format!("{bare:?}"), format!("{list:?}"));
    assert!(bare.version.is_none());
}

#[test]
fn each_error_has_its_message() {
    assert_eq!(
        parse_policy("{").unwrap_err(),
        "not valid JSON: EOF while parsing an object at line 1 column 1"
    );
    for content in ["{}", "[]", "\"Statement\"", "3"] {
        assert_eq!(
            parse_policy(content).unwrap_err(),
            "no top-level \"Statement\" key found — is this an IAM policy document?"
        );
    }
    assert_eq!(
        parse_policy(r#"{"Statement": "Allow"}"#).unwrap_err(),
        "\"Statement\" must be an object or an array of objects"
    );
    assert_eq!(
        parse_policy(r#"{"Statement": [{"Effect": "Allow"}, 7, {}]}"#).unwrap_err(),
        "statement 1: missing required \"Effect\" field"
    );
    assert_eq!(
        parse_policy(r#"{"Statement": {"Effect": true}}"#).unwrap_err(),
        "statement 0: missing required \"Effect\" field"
    );
}

#[test]
fn the_index_in_a_message_is_decimal() {
    let mut statements: Vec<Json> = Vec::new();
    for _ in 0..120 {
        statements.push(object(vec![("Effect", text("Deny"))]));
    }
    statements.push(Json::Null);
    let root = object(vec![("Statement", Json::Array(statements))]);
    assert_eq!(
        policy_from_json(&root).unwrap_err(),
        "statement 120: missing required \"Effect\" field"
    );
}

#[test]
fn every_key_of_a_statement_is_read() {
    let policy = parse_policy(
        r#"{"Version": "v", "Statement": {"Sid": "s", "Effect": "e", "Action": ["a", 1],
            "NotAction": "na", "Resource": [], "NotResource": ["nr"], "Principal": {"AWS": 5},
            "Condition": {"c": {}}}}"#,
    )
    .unwrap();
    assert_eq!(policy.version.as_deref(), Some("v"));
    let stmt = &policy.statements[0];
    assert_eq!(stmt.sid.as_deref(), Some("s"));
    assert_eq!(stmt.effect, "e");
    assert_eq!(stmt.actions, vec!["a"]);
    assert_eq!(stmt.not_actions, vec!["na"]);
    assert!(stmt.resource_present && stmt.resources.is_empty());
    assert!(stmt.not_resource_present);
    assert_eq!(stmt.not_resources, vec!["nr"]);
    assert!(stmt.has_condition);
    let principal = stmt.principal.as_ref().unwrap();
    assert!(matches!(principal.get("AWS"), Some(Json::Number(n)) if n == "5"));
    assert_eq!(format!("{:?}", policy.clone()), format!("{policy:?}"));
}

#[test]
fn the_default_statement_is_empty() {
    let stmt = Statement::default();
    assert!(stmt.sid.is_none() && stmt.effect.is_empty() && stmt.principal.is_none());
    assert!(stmt.actions.is_empty() && stmt.not_actions.is_empty());
    assert!(stmt.resources.is_empty() && stmt.not_resources.is_empty());
    assert!(!stmt.resource_present && !stmt.not_resource_present && !stmt.has_condition);
}

#[test]
fn severities_are_ordered_and_named() {
    let order = [
        Severity::Low,
        Severity::Medium,
        Severity::High,
        Severity::Critical,
    ];
    for i in 0..4 {
        for j in 0..4 {
            assert_eq!(order[i] < order[j], i < j);
            assert_eq!(order[i].cmp(&order[j]), i.cmp(&j));
            assert_eq!(order[i].partial_cmp(&order[j]), Some(i.cmp(&j)));
        }
    }
    let names: Vec<String> = order.iter().map(|s| s.to_string()).collect();
    assert_eq!(names, vec!["LOW", "MEDIUM", "HIGH", "CRITICAL"]);
}

#[test]
fn high_and_critical_block() {
    assert!(!has_blocking_findings(&[]));
    assert!(!has_blocking_findings(&[severity(Severity::Low), severity(Severity::Medium)]));
    assert!(has_blocking_findings(&[severity(Severity::Low), severity(Severity::High)]));
    assert!(has_blocking_findings(&[severity(Severity::Critical)]));
}

#[test]
fn an_unconstrained_resource_alone_does_not_block() {
    let findings = lint_text(r#"{"Statement": {"Effect": "Allow", "Action": "s3:PutObject"}}"#);
    assert_eq!(rules_of(&findings), vec!["unconstrained-resource"]);
    assert!(!has_blocking_findings(&findings));
}

#[test]
fn the_summary_counts_every_finding() {
    let findings = lint_text(DANGEROUS);
    assert_eq!(count_findings(&findings, Severity::Critical), 2);
    assert_eq!(count_findings(&findings, Severity::High), 4);
    assert_eq!(count_findings(&findings, Severity::Medium), 0);
    assert_eq!(count_findings(&findings, Severity::Low), 0);
}

#[test]
fn a_clean_report_is_one_line() {
    assert_eq!(
        render_report("p.json", &[], 3),
        "p.json: no findings — 3 statement(s) checked\n"
    );
}

#[test]
fn a_report_lists_findings_and_counts() {
    let findings = [
        Finding {
            statement_index: 10,
            sid: Some("S".to_string()),
            rule: "wildcard-action",
            severity: Severity::Critical,
            message: "first".to_string(),
        },
        Finding {
            statement_index: 0,
            sid: None,
            rule: "unconstrained-resource",
            severity: Severity::Medium,
            message: "second".to_string(),
        },
    ];
    assert_eq!(
        render_report("p.json", &findings, 12),
        "p.json: 2 finding(s) across 12 statement(s)\n\
         \n\
         [CRITICAL] statement #10 (S) — wildcard-action\n    first\n\
         \n\
         [MEDIUM] statement #0 ((no Sid)) — unconstrained-resource\n    second\n\
         \n\
         1 critical, 0 high, 1 medium\n"
    );
    assert_eq!(format!("{:?}", findings[0].clone()), format!("{:?}", findings[0]));
}
