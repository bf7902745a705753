//! The lint rules.
pub use crate::findings::{has_blocking_findings, Finding, FindingView, Severity};

#[allow(unused_imports)]
use crate::findings::finding_views;
use crate::glob::actions_overlap;
#[allow(unused_imports)]
use crate::glob::overlap;
use crate::json::Json;
#[allow(unused_imports)]
use crate::json::JsonView;
use crate::policy::{Policy, Statement};
#[allow(unused_imports)]
use crate::policy::StatementView;
use crate::text::{
    contains_text, copy_optional, eq_ignore_ascii_case, list_string, same_text, split_once,
    starts_with,
};
#[allow(unused_imports)]
use crate::text::{ascii_lowercase, list_form, lowercase, texts};
use vstd::prelude::*;

verus! {

/// Actions whose unconditional grant is a well-documented risk of privilege
/// escalation or of wide damage. They are compared without regard to case and as
/// patterns in both directions, so that the entry `iam:*` catches a statement
/// that grants `iam:*` and one that grants exactly `iam:CreateAccessKey`.
pub const SENSITIVE_ACTIONS: [&'static str; 29] = [
    "iam:*",
    "iam:createuser",
    "iam:createaccesskey",
    "iam:attachuserpolicy",
    "iam:attachrolepolicy",
    "iam:putuserpolicy",
    "iam:putrolepolicy",
    "iam:updateassumerolepolicy",
    "iam:passrole",
    "iam:createpolicyversion",
    "iam:setdefaultpolicyversion",
    "iam:deleteuserpolicy",
    "iam:deleterolepolicy",
    "sts:assumerole",
    "s3:deletebucket",
    "s3:deletebucketpolicy",
    "s3:putbucketpolicy",
    "s3:putbucketacl",
    "s3:putbucketpublicaccessblock",
    "ec2:terminateinstances",
    "rds:deletedbinstance",
    "rds:deletedbcluster",
    "kms:scheduledeletion",
    "kms:disablekey",
    "kms:putkeypolicy",
    "organizations:leaveorganization",
    "organizations:deleteorganization",
    "cloudtrail:deletetrail",
    "cloudtrail:stoplogging",
];

/// The read-only verbs, which begin the part of an action after the `:`. AWS
/// requires `Resource: "*"` for many actions of this kind, since there is no
/// narrower resource that a call such as `DescribeInstances` could name.
pub const SAFE_READ_VERBS: [&'static str; 9] = [
    "describe",
    "get",
    "list",
    "view",
    "head",
    "check",
    "lookup",
    "search",
    "query",
];

/// The part of an action after its first `:`, or all of it if there is none.
pub open spec fn verb_of(action: Seq<char>) -> Seq<char> {
    if action.contains(':') {
        action.skip(action.index_of_first(':')->0 + 1)
    } else {
        action
    }
}

/// Whether an action begins, after its service, with a read-only verb in any
/// case.
pub open spec fn is_safe_read(action: Seq<char>) -> bool {
    exists|i: int|
        0 <= i < SAFE_READ_VERBS@.len() && (#[trigger] SAFE_READ_VERBS@[i])@.is_prefix_of(
            lowercase(verb_of(action)),
        )
}

/// Whether an action is a read-only one, for which AWS may require
/// `Resource: "*"`.
pub fn is_safe_read_action(action: &str) -> (r: bool)
    ensures
        r == is_safe_read(action@),
{
    let verb = match split_once(action, ':') {
        Some((head, tail)) => {
            proof {
                verb_after_delimiter(action@, head@, tail@);
            }
            tail
        },
        None => action,
    };
    let verb_lower = verb.to_lowercase();
    for i in 0..SAFE_READ_VERBS.len()
        invariant
            verb_lower@ == lowercase(verb_of(action@)),
            forall|k: int|
                0 <= k < i ==> !(#[trigger] SAFE_READ_VERBS@[k])@.is_prefix_of(verb_lower@),
    {
        if starts_with(verb_lower.as_str(), SAFE_READ_VERBS[i]) {
            return true;
        }
    }
    false
}

/// What follows the first `:` is the verb.
proof fn verb_after_delimiter(action: Seq<char>, head: Seq<char>, tail: Seq<char>)
    requires
        action == head + seq![':'] + tail,
        !head.contains(':'),
    ensures
        verb_of(action) == tail,
{
    assert(action[head.len() as int] == ':');
    action.index_of_first_ensures(':');
    let at = action.index_of_first(':')->0;
    if at < head.len() {
        assert(head[at] == ':');
    }
    assert(action.skip(at + 1) =~= tail);
}

/// Whether a statement's effect is `Allow`, in any case.
pub open spec fn allows(stmt: StatementView) -> bool {
    ascii_lowercase(stmt.effect) == ascii_lowercase("Allow"@)
}

/// Whether a statement applies to every resource: it lists `*`, or has no
/// `Resource` key.
pub open spec fn unconstrained(stmt: StatementView) -> bool {
    !stmt.resource_present || stmt.resources.contains("*"@)
}

/// Whether a statement lists the action `*`.
pub open spec fn names_every_action(stmt: StatementView) -> bool {
    stmt.actions.contains("*"@)
}

/// Whether an action overlaps a sensitive one.
pub open spec fn is_sensitive(action: Seq<char>) -> bool {
    exists|i: int|
        0 <= i < SENSITIVE_ACTIONS@.len() && overlap(action, (#[trigger] SENSITIVE_ACTIONS@[i])@)
}

/// The sensitive actions of a statement, in order.
pub open spec fn sensitive_actions(stmt: StatementView) -> Seq<Seq<char>> {
    stmt.actions.filter(|a: Seq<char>| is_sensitive(a))
}

/// Whether a value is the string `*`.
pub open spec fn is_star(value: JsonView) -> bool {
    value == JsonView::Text("*"@)
}

/// Whether a value is the string `*` or an array with that string in it.
pub open spec fn is_or_lists_star(value: JsonView) -> bool {
    match value {
        JsonView::Array(items) => exists|i: int|
            0 <= i < items.len() && is_star(#[trigger] items[i]),
        _ => is_star(value),
    }
}

/// Whether a `Principal` stands for everyone: it is the string `*`, or an object
/// with a member that is, or lists, that string.
pub open spec fn is_everyone(principal: JsonView) -> bool {
    match principal {
        JsonView::Object(members) => exists|i: int|
            0 <= i < members.len() && is_or_lists_star((#[trigger] members[i]).value),
        _ => is_star(principal),
    }
}

/// A finding of the given rule on a statement.
pub open spec fn finding(
    index: int,
    stmt: StatementView,
    rule: Seq<char>,
    severity: Severity,
    message: Seq<char>,
) -> FindingView {
    FindingView { statement_index: index, sid: stmt.sid, rule, severity, message }
}

/// The finding of [`rule_wildcard_action`].
pub open spec fn wildcard_action(index: int, stmt: StatementView) -> Option<FindingView> {
    if !allows(stmt) || !names_every_action(stmt) {
        None
    } else if unconstrained(stmt) {
        Some(
            finding(
                index,
                stmt,
                "wildcard-action"@,
                Severity::Critical,
                "Action: \"*\" combined with an unconstrained Resource (\"*\" or omitted) — equivalent to full administrator access for this statement"@,
            ),
        )
    } else {
        Some(
            finding(
                index,
                stmt,
                "wildcard-action"@,
                Severity::High,
                "Action: \"*\" allows every AWS action, even though Resource is scoped to "@
                    + list_form(stmt.resources),
            ),
        )
    }
}

/// How the message of [`rule_unconstrained_resource`] names the missing
/// constraint.
pub open spec fn resource_description(stmt: StatementView) -> Seq<char> {
    if stmt.resource_present {
        "Resource: \"*\""@
    } else {
        "no Resource key at all (defaults to unconstrained)"@
    }
}

/// The finding of [`rule_unconstrained_resource`].
pub open spec fn unconstrained_resource(index: int, stmt: StatementView) -> Option<FindingView> {
    if allows(stmt) && unconstrained(stmt) && !names_every_action(stmt) && exists|i: int|
        0 <= i < stmt.actions.len() && !is_safe_read(#[trigger] stmt.actions[i]) {
        Some(
            finding(
                index,
                stmt,
                "unconstrained-resource"@,
                Severity::Medium,
                resource_description(stmt) + " for action(s) "@ + list_form(stmt.actions)
                    + ", which are not limited to read-only Describe/Get/List-style verbs that AWS requires \"*\" for"@,
            ),
        )
    } else {
        None
    }
}

/// The finding of [`rule_sensitive_action_without_condition`].
pub open spec fn sensitive_action_without_condition(
    index: int,
    stmt: StatementView,
) -> Option<FindingView> {
    if allows(stmt) && !stmt.has_condition && sensitive_actions(stmt).len() > 0 {
        Some(
            finding(
                index,
                stmt,
                "sensitive-action-no-condition"@,
                Severity::High,
                "Sensitive action(s) "@ + list_form(sensitive_actions(stmt))
                    + " allowed with no Condition — a scoping Condition (e.g. iam:PassedToService, aws:SourceIp, aws:MultiFactorAuthPresent) is the usual guard for actions this broad"@,
            ),
        )
    } else {
        None
    }
}

/// The finding of [`rule_wildcard_principal`].
pub open spec fn wildcard_principal(index: int, stmt: StatementView) -> Option<FindingView> {
    if allows(stmt) && stmt.principal is Some && is_everyone(stmt.principal->0) {
        Some(
            finding(
                index,
                stmt,
                "wildcard-principal"@,
                Severity::Critical,
                "Principal: \"*\" (or {\"AWS\": \"*\"}) — any AWS account, or the public internet for an unauthenticated resource policy, can take this action"@,
            ),
        )
    } else {
        None
    }
}

/// The finding of [`rule_notaction_with_allow`].
pub open spec fn notaction_with_allow(index: int, stmt: StatementView) -> Option<FindingView> {
    if allows(stmt) && stmt.not_actions.len() > 0 {
        Some(
            finding(
                index,
                stmt,
                "notaction-with-allow"@,
                Severity::High,
                "Effect: Allow combined with NotAction: "@ + list_form(stmt.not_actions)
                    + " grants every action EXCEPT the ones listed — effectively unbounded and grows automatically as AWS adds new APIs"@,
            ),
        )
    } else {
        None
    }
}

/// The finding of [`rule_notresource_with_allow`].
pub open spec fn notresource_with_allow(index: int, stmt: StatementView) -> Option<FindingView> {
    if allows(stmt) && stmt.not_resources.len() > 0 {
        Some(
            finding(
                index,
                stmt,
                "notresource-with-allow"@,
                Severity::High,
                "Effect: Allow combined with NotResource: "@ + list_form(stmt.not_resources)
                    + " grants access to every resource EXCEPT the ones listed"@,
            ),
        )
    } else {
        None
    }
}

/// A finding as a sequence of one, or no finding as an empty one.
pub open spec fn listed(f: Option<FindingView>) -> Seq<FindingView> {
    match f {
        Some(f) => seq![f],
        None => Seq::empty(),
    }
}

/// The findings on one statement, rule by rule.
pub open spec fn statement_findings(index: int, stmt: StatementView) -> Seq<FindingView> {
    listed(wildcard_action(index, stmt)) + listed(unconstrained_resource(index, stmt)) + listed(
        sensitive_action_without_condition(index, stmt),
    ) + listed(wildcard_principal(index, stmt)) + listed(notaction_with_allow(index, stmt))
        + listed(notresource_with_allow(index, stmt))
}

/// The findings on some statements, in their order.
pub open spec fn findings_on(statements: Seq<StatementView>) -> Seq<FindingView>
    decreases statements.len(),
{
    if statements.len() == 0 {
        Seq::empty()
    } else {
        findings_on(statements.drop_last()) + statement_findings(
            statements.len() - 1,
            statements.last(),
        )
    }
}

/// The contents of an optional finding.
pub open spec fn optional_finding(f: Option<Finding>) -> Option<FindingView> {
    match f {
        Some(f) => Some(f@),
        None => None,
    }
}

/// Whether a statement applies to every resource.
pub fn resource_unconstrained(stmt: &Statement) -> (r: bool)
    ensures
        r == unconstrained(stmt@),
{
    !stmt.resource_present || contains_text(&stmt.resources, "*")
}

/// Whether a statement's effect is `Allow`, in any case.
pub fn is_allow(stmt: &Statement) -> (r: bool)
    ensures
        r == allows(stmt@),
{
    eq_ignore_ascii_case(stmt.effect.as_str(), "Allow")
}

/// Flags `Action: "*"`: critical if the resource is unconstrained too, else high.
pub fn rule_wildcard_action(idx: usize, stmt: &Statement) -> (r: Option<Finding>)
    ensures
        optional_finding(r) == wildcard_action(idx as int, stmt@),
{
    if !is_allow(stmt) || !contains_text(&stmt.actions, "*") {
        return None;
    }
    let (severity, message) = if resource_unconstrained(stmt) {
        (
            Severity::Critical,
            "Action: \"*\" combined with an unconstrained Resource (\"*\" or omitted) — equivalent to full administrator access for this statement".to_owned(),
        )
    } else {
        let mut message =
            "Action: \"*\" allows every AWS action, even though Resource is scoped to ".to_owned();
        message.append(list_string(&stmt.resources).as_str());
        (Severity::High, message)
    };
    Some(
        Finding {
            statement_index: idx,
            sid: copy_optional(&stmt.sid),
            rule: "wildcard-action",
            severity,
            message,
        },
    )
}

/// Flags an unconstrained resource, unless every action is a read-only one. A
/// statement that lists `*` is left to [`rule_wildcard_action`], and one that
/// lists no action to [`rule_notaction_with_allow`].
pub fn rule_unconstrained_resource(idx: usize, stmt: &Statement) -> (r: Option<Finding>)
    ensures
        optional_finding(r) == unconstrained_resource(idx as int, stmt@),
{
    if !is_allow(stmt) || !resource_unconstrained(stmt) {
        return None;
    }
    if contains_text(&stmt.actions, "*") {
        return None;
    }
    if all_safe_reads(&stmt.actions) {
        return None;
    }
    let mut message = if stmt.resource_present {
        "Resource: \"*\"".to_owned()
    } else {
        "no Resource key at all (defaults to unconstrained)".to_owned()
    };
    message.append(" for action(s) ");
    message.append(list_string(&stmt.actions).as_str());
    message.append(
        ", which are not limited to read-only Describe/Get/List-style verbs that AWS requires \"*\" for",
    );
    Some(
        Finding {
            statement_index: idx,
            sid: copy_optional(&stmt.sid),
            rule: "unconstrained-resource",
            severity: Severity::Medium,
            message,
        },
    )
}

/// Whether every action is a read-only one.
fn all_safe_reads(actions: &Vec<String>) -> (r: bool)
    ensures
        r == forall|i: int|
            0 <= i < texts(actions@).len() ==> is_safe_read(#[trigger] texts(actions@)[i]),
{
    let ghost all = texts(actions@);
    for i in 0..actions.len()
        invariant
            all == texts(actions@),
            forall|k: int| 0 <= k < i ==> is_safe_read(#[trigger] all[k]),
    {
        assert(all[i as int] == actions@[i as int]@);
        if !is_safe_read_action(actions[i].as_str()) {
            return false;
        }
    }
    true
}

/// Whether an action overlaps a sensitive one.
pub fn is_sensitive_action(action: &str) -> (r: bool)
    ensures
        r == is_sensitive(action@),
{
    for i in 0..SENSITIVE_ACTIONS.len()
        invariant
            forall|k: int| 0 <= k < i ==> !overlap(action@, (#[trigger] SENSITIVE_ACTIONS@[k])@),
    {
        if actions_overlap(action, SENSITIVE_ACTIONS[i]) {
            return true;
        }
    }
    false
}

/// The sensitive actions of a statement.
fn matched_actions(stmt: &Statement) -> (r: Vec<String>)
    ensures
        texts(r@) == sensitive_actions(stmt@),
{
    let ghost all = texts(stmt.actions@);
    let ghost wanted = |a: Seq<char>| is_sensitive(a);
    let mut matched: Vec<String> = Vec::new();
    proof {
        reveal(Seq::filter);
        assert(texts(matched@) =~= all.take(0).filter(wanted));
    }
    for i in 0..stmt.actions.len()
        invariant
            all == texts(stmt.actions@),
            wanted == (|a: Seq<char>| is_sensitive(a)),
            texts(matched@) == all.take(i as int).filter(wanted),
    {
        let ghost before = matched@;
        proof {
            reveal(Seq::filter);
            assert(all.take(i + 1).drop_last() =~= all.take(i as int));
            assert(all[i as int] == stmt.actions@[i as int]@);
        }
        if is_sensitive_action(stmt.actions[i].as_str()) {
            matched.push(stmt.actions[i].clone());
            assert(texts(matched@) =~= texts(before).push(all[i as int]));
        }
    }
    assert(all.take(all.len() as int) =~= all);
    matched
}

/// Flags sensitive actions that are allowed without a condition.
pub fn rule_sensitive_action_without_condition(idx: usize, stmt: &Statement) -> (r: Option<Finding>)
    ensures
        optional_finding(r) == sensitive_action_without_condition(idx as int, stmt@),
{
    if !is_allow(stmt) || stmt.has_condition {
        return None;
    }
    let matched = matched_actions(stmt);
    assert(texts(matched@).len() == matched@.len());
    if matched.len() == 0 {
        return None;
    }
    let mut message = "Sensitive action(s) ".to_owned();
    message.append(list_string(&matched).as_str());
    message.append(
        " allowed with no Condition — a scoping Condition (e.g. iam:PassedToService, aws:SourceIp, aws:MultiFactorAuthPresent) is the usual guard for actions this broad",
    );
    Some(
        Finding {
            statement_index: idx,
            sid: copy_optional(&stmt.sid),
            rule: "sensitive-action-no-condition",
            severity: Severity::High,
            message,
        },
    )
}

/// Whether a value is the string `*`.
fn json_is_star(value: &Json) -> (r: bool)
    ensures
        r == is_star(value@),
{
    match value {
        Json::Text(t) => same_text(t.as_str(), "*"),
        _ => false,
    }
}

/// Whether a value is the string `*` or an array with that string in it.
fn json_is_or_lists_star(value: &Json) -> (r: bool)
    ensures
        r == is_or_lists_star(value@),
{
    match value {
        Json::Array(items) => {
            let ghost all = value@->Array_0;
            for i in 0..items.len()
                invariant
                    value == Json::Array(*items),
                    all == value@->Array_0,
                    all.len() == items@.len(),
                    forall|k: int| 0 <= k < i ==> !is_star(#[trigger] all[k]),
            {
                assert(all[i as int] == items@[i as int]@);
                if json_is_star(&items[i]) {
                    return true;
                }
            }
            false
        },
        _ => json_is_star(value),
    }
}

/// Whether a `Principal` stands for everyone.
pub fn principal_has_wildcard(value: &Json) -> (r: bool)
    ensures
        r == is_everyone(value@),
{
    match value {
        Json::Object(members) => {
            let ghost all = value@->Object_0;
            for i in 0..members.len()
                invariant
                    value == Json::Object(*members),
                    all == value@->Object_0,
                    all.len() == members@.len(),
                    forall|k: int| 0 <= k < i ==> !is_or_lists_star((#[trigger] all[k]).value),
            {
                assert(all[i as int].value == members@[i as int].value@);
                if json_is_or_lists_star(&members[i].value) {
                    return true;
                }
            }
            false
        },
        _ => json_is_star(value),
    }
}

/// Flags a principal that stands for everyone.
pub fn rule_wildcard_principal(idx: usize, stmt: &Statement) -> (r: Option<Finding>)
    ensures
        optional_finding(r) == wildcard_principal(idx as int, stmt@),
{
    if !is_allow(stmt) {
        return None;
    }
    let everyone = match &stmt.principal {
        Some(principal) => principal_has_wildcard(principal),
        None => false,
    };
    if !everyone {
        return None;
    }
    Some(
        Finding {
            statement_index: idx,
            sid: copy_optional(&stmt.sid),
            rule: "wildcard-principal",
            severity: Severity::Critical,
            message: "Principal: \"*\" (or {\"AWS\": \"*\"}) — any AWS account, or the public internet for an unauthenticated resource policy, can take this action".to_owned(),
        },
    )
}

/// Flags `NotAction` in an `Allow` statement.
pub fn rule_notaction_with_allow(idx: usize, stmt: &Statement) -> (r: Option<Finding>)
    ensures
        optional_finding(r) == notaction_with_allow(idx as int, stmt@),
{
    assert(stmt@.not_actions.len() == stmt.not_actions@.len());
    if !is_allow(stmt) || stmt.not_actions.len() == 0 {
        return None;
    }
    let mut message = "Effect: Allow combined with NotAction: ".to_owned();
    message.append(list_string(&stmt.not_actions).as_str());
    message.append(
        " grants every action EXCEPT the ones listed — effectively unbounded and grows automatically as AWS adds new APIs",
    );
    Some(
        Finding {
            statement_index: idx,
            sid: copy_optional(&stmt.sid),
            rule: "notaction-with-allow",
            severity: Severity::High,
            message,
        },
    )
}

/// Flags `NotResource` in an `Allow` statement.
pub fn rule_notresource_with_allow(idx: usize, stmt: &Statement) -> (r: Option<Finding>)
    ensures
        optional_finding(r) == notresource_with_allow(idx as int, stmt@),
{
    assert(stmt@.not_resources.len() == stmt.not_resources@.len());
    if !is_allow(stmt) || stmt.not_resources.len() == 0 {
        return None;
    }
    let mut message = "Effect: Allow combined with NotResource: ".to_owned();
    message.append(list_string(&stmt.not_resources).as_str());
    message.append(" grants access to every resource EXCEPT the ones listed");
    Some(
        Finding {
            statement_index: idx,
            sid: copy_optional(&stmt.sid),
            rule: "notresource-with-allow",
            severity: Severity::High,
            message,
        },
    )
}

/// Adds a finding, if there is one.
fn push_finding(findings: &mut Vec<Finding>, f: Option<Finding>)
    ensures
        finding_views(final(findings)@) == finding_views(old(findings)@) + listed(
            optional_finding(f),
        ),
{
    let ghost before = findings@;
    if let Some(f) = f {
        findings.push(f);
        assert(finding_views(findings@) =~= finding_views(before) + seq![f@]);
    } else {
        assert(finding_views(findings@) =~= finding_views(before) + Seq::empty());
    }
}

/// Appending six sequences one by one appends them all.
proof fn append_in_turn<A>(
    start: Seq<A>,
    a: Seq<A>,
    b: Seq<A>,
    c: Seq<A>,
    d: Seq<A>,
    e: Seq<A>,
    f: Seq<A>,
)
    ensures
        start + a + b + c + d + e + f == start + (a + b + c + d + e + f),
{
    assert(start + a + b + c + d + e + f =~= start + (a + b + c + d + e + f));
}

/// Applies every rule to one statement.
fn lint_statement(findings: &mut Vec<Finding>, idx: usize, stmt: &Statement)
    ensures
        finding_views(final(findings)@) == finding_views(old(findings)@) + statement_findings(
            idx as int,
            stmt@,
        ),
{
    proof {
        append_in_turn(
            finding_views(findings@),
            listed(wildcard_action(idx as int, stmt@)),
            listed(unconstrained_resource(idx as int, stmt@)),
            listed(sensitive_action_without_condition(idx as int, stmt@)),
            listed(wildcard_principal(idx as int, stmt@)),
            listed(notaction_with_allow(idx as int, stmt@)),
            listed(notresource_with_allow(idx as int, stmt@)),
        );
    }
    push_finding(findings, rule_wildcard_action(idx, stmt));
    push_finding(findings, rule_unconstrained_resource(idx, stmt));
    push_finding(findings, rule_sensitive_action_without_condition(idx, stmt));
    push_finding(findings, rule_wildcard_principal(idx, stmt));
    push_finding(findings, rule_notaction_with_allow(idx, stmt));
    push_finding(findings, rule_notresource_with_allow(idx, stmt));
}

/// Applies every rule to every statement of a policy. The findings come in the
/// order of the statements, and on one statement in the order of the rules.
pub fn lint(policy: &Policy) -> (r: Vec<Finding>)
    ensures
        finding_views(r@) == findings_on(policy@.statements),
{
    let ghost all = policy@.statements;
    let mut findings: Vec<Finding> = Vec::new();
    assert(finding_views(findings@) =~= findings_on(all.take(0)));
    for idx in 0..policy.statements.len()
        invariant
            all == policy@.statements,
            all.len() == policy.statements@.len(),
            finding_views(findings@) == findings_on(all.take(idx as int)),
    {
        let stmt = &policy.statements[idx];
        assert(all[idx as int] == stmt@);
        assert(all.take(idx + 1).drop_last() =~= all.take(idx as int));
        lint_statement(&mut findings, idx, stmt);
    }
    assert(all.take(all.len() as int) =~= all);
    findings
}

} // verus!
