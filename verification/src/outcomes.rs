//! What is reported on a statement, in terms of its fields.
#![allow(unused_imports)]

use crate::findings::{FindingView, Severity};
use crate::glob::plain;
use crate::json::JsonView;
use crate::laws::sensitive_action_needs_a_condition;
use crate::meaning::{other_verbs_are_not_read_only, sensitive_without_wildcards};
use crate::policy::StatementView;
use crate::rules::{
    allows, findings_on, is_safe_read, is_sensitive, listed, notaction_with_allow,
    notresource_with_allow, sensitive_action_without_condition, sensitive_actions,
    statement_findings, unconstrained_resource, wildcard_action, wildcard_principal,
};
use crate::text::{ascii_lowercase, list_form, lowercase};
use vstd::prelude::*;

verus! {

/// The folded form of `Allow`.
proof fn allow_folds()
    ensures
        ascii_lowercase("Allow"@) == "allow"@,
{
    reveal_strlit("Allow");
    reveal_strlit("allow");
    assert(ascii_lowercase("Allow"@) =~= "allow"@);
}

/// A statement allows exactly if its effect reads `allow` once capitals are folded.
pub proof fn allow_means_the_word(stmt: StatementView)
    ensures
        allows(stmt) <==> ascii_lowercase(stmt.effect) == "allow"@,
{
    allow_folds();
}

/// Whatever its other keys are, an `Allow` statement has a `wildcard-action` finding
/// exactly if one of its actions is `*`. It is critical if the statement has no
/// `Resource` or lists `*` there, and high otherwise.
pub proof fn wildcard_action_is_reported(index: int, stmt: StatementView)
    ensures
        wildcard_action(index, stmt) is Some <==> ascii_lowercase(stmt.effect) == "allow"@
            && exists|i: int| 0 <= i < stmt.actions.len() && #[trigger] stmt.actions[i] == "*"@,
        wildcard_action(index, stmt) is Some ==> {
            let f = wildcard_action(index, stmt)->0;
            let everywhere = !stmt.resource_present || exists|i: int|
                0 <= i < stmt.resources.len() && #[trigger] stmt.resources[i] == "*"@;
            &&& f.statement_index == index
            &&& f.sid == stmt.sid
            &&& f.rule == "wildcard-action"@
            &&& everywhere ==> f.severity == Severity::Critical && f.message
                == "Action: \"*\" combined with an unconstrained Resource (\"*\" or omitted) — equivalent to full administrator access for this statement"@
            &&& !everywhere ==> f.severity == Severity::High && f.message
                == "Action: \"*\" allows every AWS action, even though Resource is scoped to "@
                + list_form(stmt.resources)
        },
{
    allow_folds();
}

/// Whatever its other keys are, an `Allow` statement that has no `Resource` or lists
/// `*` there, and lists no `*` action, has an `unconstrained-resource` finding
/// exactly if one of its actions is not read-only. It is medium.
pub proof fn unconstrained_resource_is_reported(index: int, stmt: StatementView)
    ensures
        unconstrained_resource(index, stmt) is Some <==> {
            &&& ascii_lowercase(stmt.effect) == "allow"@
            &&& !stmt.resource_present || exists|i: int|
                0 <= i < stmt.resources.len() && #[trigger] stmt.resources[i] == "*"@
            &&& forall|i: int|
                0 <= i < stmt.actions.len() ==> #[trigger] stmt.actions[i] != "*"@
            &&& exists|i: int|
                0 <= i < stmt.actions.len() && !is_safe_read(#[trigger] stmt.actions[i])
        },
        unconstrained_resource(index, stmt) is Some ==> {
            let f = unconstrained_resource(index, stmt)->0;
            &&& f.statement_index == index
            &&& f.sid == stmt.sid
            &&& f.rule == "unconstrained-resource"@
            &&& f.severity == Severity::Medium
            &&& f.message == (if stmt.resource_present {
                "Resource: \"*\""@
            } else {
                "no Resource key at all (defaults to unconstrained)"@
            }) + " for action(s) "@ + list_form(stmt.actions)
                + ", which are not limited to read-only Describe/Get/List-style verbs that AWS requires \"*\" for"@
        },
{
    allow_folds();
}

/// An `Allow` statement on every resource with an action whose verb begins with a
/// character that begins no read-only verb, `*` included, is flagged.
pub proof fn verb_wildcard_is_not_exempt(
    index: int,
    stmt: StatementView,
    service: Seq<char>,
    verb: Seq<char>,
)
    requires
        ascii_lowercase(stmt.effect) == "allow"@,
        !stmt.resource_present || stmt.resources.contains("*"@),
        !stmt.actions.contains("*"@),
        stmt.actions.contains(service + seq![':'] + verb),
        !service.contains(':'),
        lowercase(verb).len() == 0 || !seq!['d', 'g', 'l', 'v', 'h', 'c', 's', 'q'].contains(
            lowercase(verb)[0],
        ),
    ensures
        unconstrained_resource(index, stmt) is Some,
{
    other_verbs_are_not_read_only(service, verb);
    unconstrained_resource_is_reported(index, stmt);
    let i = stmt.actions.index_of(service + seq![':'] + verb);
    assert(!is_safe_read(stmt.actions[i]));
}

/// Whatever its other keys are, an `Allow` statement has a
/// `sensitive-action-no-condition` finding exactly if it has no condition and one of
/// its actions is sensitive. It is high and lists the sensitive actions.
pub proof fn sensitive_action_is_reported(index: int, stmt: StatementView)
    ensures
        sensitive_action_without_condition(index, stmt) is Some <==> {
            &&& ascii_lowercase(stmt.effect) == "allow"@
            &&& !stmt.has_condition
            &&& exists|i: int|
                0 <= i < stmt.actions.len() && is_sensitive(#[trigger] stmt.actions[i])
        },
        sensitive_action_without_condition(index, stmt) is Some ==> {
            let f = sensitive_action_without_condition(index, stmt)->0;
            &&& f.statement_index == index
            &&& f.sid == stmt.sid
            &&& f.rule == "sensitive-action-no-condition"@
            &&& f.severity == Severity::High
            &&& f.message == "Sensitive action(s) "@ + list_form(
                stmt.actions.filter(|a: Seq<char>| is_sensitive(a)),
            )
                + " allowed with no Condition — a scoping Condition (e.g. iam:PassedToService, aws:SourceIp, aws:MultiFactorAuthPresent) is the usual guard for actions this broad"@
        },
{
    allow_folds();
    sensitive_action_needs_a_condition(index, stmt);
}

/// A statement of actions without wildcards, outside the IAM service and not among
/// the listed ones, has no `sensitive-action-no-condition` finding.
pub proof fn unlisted_actions_are_not_reported(index: int, stmt: StatementView)
    requires
        forall|i: int|
            0 <= i < stmt.actions.len() ==> plain(lowercase(#[trigger] stmt.actions[i]))
                && !"iam:"@.is_prefix_of(lowercase(stmt.actions[i])) && !seq![
                "sts:assumerole"@,
                "s3:deletebucket"@,
                "s3:deletebucketpolicy"@,
                "s3:putbucketpolicy"@,
                "s3:putbucketacl"@,
                "s3:putbucketpublicaccessblock"@,
                "ec2:terminateinstances"@,
                "rds:deletedbinstance"@,
                "rds:deletedbcluster"@,
                "kms:scheduledeletion"@,
                "kms:disablekey"@,
                "kms:putkeypolicy"@,
                "organizations:leaveorganization"@,
                "organizations:deleteorganization"@,
                "cloudtrail:deletetrail"@,
                "cloudtrail:stoplogging"@,
            ].contains(lowercase(stmt.actions[i])),
    ensures
        sensitive_action_without_condition(index, stmt) is None,
{
    sensitive_action_is_reported(index, stmt);
    assert forall|i: int| 0 <= i < stmt.actions.len() implies !is_sensitive(
        #[trigger] stmt.actions[i],
    ) by {
        sensitive_without_wildcards(stmt.actions[i]);
    }
}

/// The sensitive actions of two lists of actions joined are those of the first, then
/// those of the second; of one action it is that action, if it is sensitive.
pub proof fn sensitive_actions_are_listed_in_order(
    stmt: StatementView,
    a: Seq<Seq<char>>,
    b: Seq<Seq<char>>,
    action: Seq<char>,
)
    ensures
        sensitive_actions(StatementView { actions: a + b, ..stmt }) == sensitive_actions(
            StatementView { actions: a, ..stmt },
        ) + sensitive_actions(StatementView { actions: b, ..stmt }),
        sensitive_actions(StatementView { actions: seq![action], ..stmt }) == if is_sensitive(
            action,
        ) {
            seq![action]
        } else {
            Seq::empty()
        },
        sensitive_actions(StatementView { actions: Seq::empty(), ..stmt }) == Seq::<
            Seq<char>,
        >::empty(),
{
    let p = |x: Seq<char>| is_sensitive(x);
    filter_joined(a, b, p);
    filter_one(action, p);
    reveal(Seq::filter);
}

/// A filter goes over a joined sequence part by part.
pub(crate) proof fn filter_joined<A>(a: Seq<A>, b: Seq<A>, p: spec_fn(A) -> bool)
    ensures
        (a + b).filter(p) == a.filter(p) + b.filter(p),
    decreases b.len(),
{
    reveal(Seq::filter);
    if b.len() == 0 {
        assert(a + b =~= a);
        assert(a.filter(p) + b.filter(p) =~= a.filter(p));
    } else {
        filter_joined(a, b.drop_last(), p);
        assert((a + b).drop_last() =~= a + b.drop_last());
        assert((a + b).filter(p) =~= a.filter(p) + b.filter(p));
    }
}

/// A filter keeps a single element that passes it.
pub(crate) proof fn filter_one<A>(x: A, p: spec_fn(A) -> bool)
    ensures
        seq![x].filter(p) == if p(x) {
            seq![x]
        } else {
            Seq::empty()
        },
{
    reveal(Seq::filter);
    let one = seq![x];
    assert(one.drop_last() =~= Seq::<A>::empty());
    assert(one.drop_last().filter(p) =~= Seq::<A>::empty());
    assert(one.last() == x);
    assert(one.filter(p) =~= if p(x) {
        seq![x]
    } else {
        Seq::empty()
    });
}

/// Whatever its other keys are, an `Allow` statement has a `wildcard-principal`
/// finding exactly if its `Principal` is `*`, or an object with a member that is `*`
/// or an array with `*` in it. It is critical.
pub proof fn wildcard_principal_is_reported(index: int, stmt: StatementView)
    ensures
        wildcard_principal(index, stmt) is Some <==> ascii_lowercase(stmt.effect) == "allow"@ && {
            ||| stmt.principal == Some(JsonView::Text("*"@))
            ||| stmt.principal is Some && stmt.principal->0 is Object && exists|i: int|
                0 <= i < stmt.principal->0->Object_0.len() && {
                    let value = (#[trigger] stmt.principal->0->Object_0[i]).value;
                    ||| value == JsonView::Text("*"@)
                    ||| value is Array && exists|k: int|
                        0 <= k < value->Array_0.len() && #[trigger] value->Array_0[k]
                            == JsonView::Text("*"@)
                }
        },
        wildcard_principal(index, stmt) is Some ==> {
            let f = wildcard_principal(index, stmt)->0;
            &&& f.statement_index == index
            &&& f.sid == stmt.sid
            &&& f.rule == "wildcard-principal"@
            &&& f.severity == Severity::Critical
            &&& f.message
                == "Principal: \"*\" (or {\"AWS\": \"*\"}) — any AWS account, or the public internet for an unauthenticated resource policy, can take this action"@
        },
{
    allow_folds();
}

/// Whatever its other keys are, an `Allow` statement has a `notaction-with-allow`
/// finding exactly if it lists something under `NotAction`. It is high.
pub proof fn notaction_is_reported(index: int, stmt: StatementView)
    ensures
        notaction_with_allow(index, stmt) is Some <==> ascii_lowercase(stmt.effect) == "allow"@
            && stmt.not_actions.len() > 0,
        notaction_with_allow(index, stmt) is Some ==> {
            let f = notaction_with_allow(index, stmt)->0;
            &&& f.statement_index == index
            &&& f.sid == stmt.sid
            &&& f.rule == "notaction-with-allow"@
            &&& f.severity == Severity::High
            &&& f.message == "Effect: Allow combined with NotAction: "@ + list_form(
                stmt.not_actions,
            )
                + " grants every action EXCEPT the ones listed — effectively unbounded and grows automatically as AWS adds new APIs"@
        },
{
    allow_folds();
}

/// Whatever its other keys are, an `Allow` statement has a `notresource-with-allow`
/// finding exactly if it lists something under `NotResource`. It is high.
pub proof fn notresource_is_reported(index: int, stmt: StatementView)
    ensures
        notresource_with_allow(index, stmt) is Some <==> ascii_lowercase(stmt.effect) == "allow"@
            && stmt.not_resources.len() > 0,
        notresource_with_allow(index, stmt) is Some ==> {
            let f = notresource_with_allow(index, stmt)->0;
            &&& f.statement_index == index
            &&& f.sid == stmt.sid
            &&& f.rule == "notresource-with-allow"@
            &&& f.severity == Severity::High
            &&& f.message == "Effect: Allow combined with NotResource: "@ + list_form(
                stmt.not_resources,
            ) + " grants access to every resource EXCEPT the ones listed"@
        },
{
    allow_folds();
}

/// A finding is reported on a statement exactly if one of the six rules gives it.
pub proof fn every_rule_is_reported(index: int, stmt: StatementView, f: FindingView)
    ensures
        statement_findings(index, stmt).contains(f) <==> {
            ||| wildcard_action(index, stmt) == Some(f)
            ||| unconstrained_resource(index, stmt) == Some(f)
            ||| sensitive_action_without_condition(index, stmt) == Some(f)
            ||| wildcard_principal(index, stmt) == Some(f)
            ||| notaction_with_allow(index, stmt) == Some(f)
            ||| notresource_with_allow(index, stmt) == Some(f)
        },
{
    let a = listed(wildcard_action(index, stmt));
    let b = listed(unconstrained_resource(index, stmt));
    let c = listed(sensitive_action_without_condition(index, stmt));
    let d = listed(wildcard_principal(index, stmt));
    let e = listed(notaction_with_allow(index, stmt));
    let g = listed(notresource_with_allow(index, stmt));
    joined_contains(a, b, f);
    joined_contains(a + b, c, f);
    joined_contains(a + b + c, d, f);
    joined_contains(a + b + c + d, e, f);
    joined_contains(a + b + c + d + e, g, f);
    listed_contains(wildcard_action(index, stmt), f);
    listed_contains(unconstrained_resource(index, stmt), f);
    listed_contains(sensitive_action_without_condition(index, stmt), f);
    listed_contains(wildcard_principal(index, stmt), f);
    listed_contains(notaction_with_allow(index, stmt), f);
    listed_contains(notresource_with_allow(index, stmt), f);
}

proof fn listed_contains(o: Option<FindingView>, f: FindingView)
    ensures
        listed(o).contains(f) <==> o == Some(f),
{
    if o == Some(f) {
        assert(listed(o)[0] == f);
    }
}

proof fn joined_contains<A>(a: Seq<A>, b: Seq<A>, x: A)
    ensures
        (a + b).contains(x) <==> a.contains(x) || b.contains(x),
{
    if a.contains(x) {
        assert((a + b)[a.index_of(x)] == x);
    }
    if b.contains(x) {
        assert((a + b)[a.len() + b.index_of(x)] == x);
    }
    if (a + b).contains(x) {
        let i = (a + b).index_of(x);
        if i < a.len() {
            assert(a[i] == x);
        } else {
            assert(b[i - a.len()] == x);
        }
    }
}

/// The findings on a statement come in the order of the rules.
pub proof fn rules_come_in_order(index: int, stmt: StatementView, i: int, j: int)
    requires
        0 <= i < j < statement_findings(index, stmt).len(),
    ensures
        ({
            let order = seq![
                "wildcard-action"@,
                "unconstrained-resource"@,
                "sensitive-action-no-condition"@,
                "wildcard-principal"@,
                "notaction-with-allow"@,
                "notresource-with-allow"@,
            ];
            exists|a: int, b: int|
                0 <= a < b < 6 && #[trigger] order[a] == statement_findings(index, stmt)[i].rule
                    && #[trigger] order[b] == statement_findings(index, stmt)[j].rule
        }),
{
    places(
        listed(wildcard_action(index, stmt)),
        listed(unconstrained_resource(index, stmt)),
        listed(sensitive_action_without_condition(index, stmt)),
        listed(wildcard_principal(index, stmt)),
        listed(notaction_with_allow(index, stmt)),
        listed(notresource_with_allow(index, stmt)),
        i,
        j,
    );
}

/// Where two positions in six sequences of at most one finding come from.
proof fn places(
    a: Seq<FindingView>,
    b: Seq<FindingView>,
    c: Seq<FindingView>,
    d: Seq<FindingView>,
    e: Seq<FindingView>,
    f: Seq<FindingView>,
    i: int,
    j: int,
)
    requires
        a.len() <= 1 && b.len() <= 1 && c.len() <= 1 && d.len() <= 1 && e.len() <= 1 && f.len()
            <= 1,
        a.len() == 1 ==> a[0].rule == "wildcard-action"@,
        b.len() == 1 ==> b[0].rule == "unconstrained-resource"@,
        c.len() == 1 ==> c[0].rule == "sensitive-action-no-condition"@,
        d.len() == 1 ==> d[0].rule == "wildcard-principal"@,
        e.len() == 1 ==> e[0].rule == "notaction-with-allow"@,
        f.len() == 1 ==> f[0].rule == "notresource-with-allow"@,
        0 <= i < j < (a + b + c + d + e + f).len(),
    ensures
        ({
            let order = seq![
                "wildcard-action"@,
                "unconstrained-resource"@,
                "sensitive-action-no-condition"@,
                "wildcard-principal"@,
                "notaction-with-allow"@,
                "notresource-with-allow"@,
            ];
            exists|x: int, y: int|
                0 <= x < y < 6 && #[trigger] order[x] == (a + b + c + d + e + f)[i].rule
                    && #[trigger] order[y] == (a + b + c + d + e + f)[j].rule
        }),
{
    let order = seq![
        "wildcard-action"@,
        "unconstrained-resource"@,
        "sensitive-action-no-condition"@,
        "wildcard-principal"@,
        "notaction-with-allow"@,
        "notresource-with-allow"@,
    ];
    let all = a + b + c + d + e + f;
    let x = place(a.len(), b.len(), c.len(), d.len(), e.len(), i);
    let y = place(a.len(), b.len(), c.len(), d.len(), e.len(), j);
    assert(order[x] == all[i].rule);
    assert(order[y] == all[j].rule);
}

/// Which of six sequences a position in their concatenation falls in.
spec fn place(a: nat, b: nat, c: nat, d: nat, e: nat, i: int) -> int {
    if i < a {
        0
    } else if i < a + b {
        1
    } else if i < a + b + c {
        2
    } else if i < a + b + c + d {
        3
    } else if i < a + b + c + d + e {
        4
    } else {
        5
    }
}

/// The findings on a policy of one statement are those on the statement.
pub proof fn findings_on_one_statement(stmt: StatementView)
    ensures
        findings_on(seq![stmt]) == statement_findings(0, stmt),
        findings_on(Seq::empty()) == Seq::<FindingView>::empty(),
{
    let one = seq![stmt];
    assert(one.drop_last() =~= Seq::<StatementView>::empty());
    reveal_with_fuel(findings_on, 2);
    assert(one.last() == stmt);
    assert(findings_on(one) =~= statement_findings(0, stmt));
}

} // verus!
