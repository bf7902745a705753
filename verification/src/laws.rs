//! What holds of the linter as a whole.
#![allow(unused_imports)]

use crate::findings::{blocking, FindingView, Severity};
use crate::glob::{
    glob_matches, matches_pattern, overlap, pattern_matches_itself, plain, plain_prefix,
    star_matches_everything,
};
use crate::json::{lookup, JsonView, MemberView};
use crate::policy::{
    first_without_effect, has_effect, listed_texts, missing_effect, policy_of, statement_of,
    texts_among, PolicyView, StatementView,
};
use crate::report::count;
use crate::rules::{
    allows, findings_on, is_everyone, is_or_lists_star, is_safe_read, is_sensitive, listed,
    names_every_action, notaction_with_allow, notresource_with_allow,
    sensitive_action_without_condition, statement_findings, unconstrained,
    unconstrained_resource, verb_of, wildcard_action, wildcard_principal, SENSITIVE_ACTIONS,
};
use crate::text::{ascii_case_folds, ascii_lower, ascii_lowercase, lowercase};
use vstd::prelude::*;

verus! {

/// A statement that does not allow is never flagged.
pub proof fn only_allow_is_flagged(index: int, stmt: StatementView)
    requires
        !allows(stmt),
    ensures
        statement_findings(index, stmt) == Seq::<FindingView>::empty(),
{
}

/// A `Deny` statement, in any case, is never flagged: a denial restricts.
pub proof fn deny_is_never_flagged(index: int, stmt: StatementView)
    requires
        ascii_lowercase(stmt.effect) == ascii_lowercase("Deny"@),
    ensures
        statement_findings(index, stmt) == Seq::<FindingView>::empty(),
{
    reveal_strlit("Deny");
    reveal_strlit("Allow");
    assert(ascii_lowercase("Deny"@).len() == 4);
    assert(ascii_lowercase("Allow"@).len() == 5);
}

/// A policy without an `Allow` statement has no findings.
pub proof fn policy_of_denials_is_clean(statements: Seq<StatementView>)
    requires
        forall|i: int| 0 <= i < statements.len() ==> !allows(#[trigger] statements[i]),
    ensures
        findings_on(statements) == Seq::<FindingView>::empty(),
    decreases statements.len(),
{
    if statements.len() > 0 {
        policy_of_denials_is_clean(statements.drop_last());
        only_allow_is_flagged(statements.len() - 1, statements.last());
    }
}

/// The findings on one statement carry its index and its `Sid`.
proof fn statement_findings_are_labelled(index: int, stmt: StatementView, i: int)
    requires
        0 <= i < statement_findings(index, stmt).len(),
    ensures
        statement_findings(index, stmt)[i].statement_index == index,
        statement_findings(index, stmt)[i].sid == stmt.sid,
        allows(stmt),
{
}

/// Each finding names a statement of the policy that allows, carries its `Sid`,
/// and is one of the findings on that statement taken alone.
pub proof fn finding_names_its_statement(statements: Seq<StatementView>, i: int)
    requires
        0 <= i < findings_on(statements).len(),
    ensures
        ({
            let f = findings_on(statements)[i];
            &&& 0 <= f.statement_index < statements.len()
            &&& allows(statements[f.statement_index])
            &&& f.sid == statements[f.statement_index].sid
            &&& statement_findings(f.statement_index, statements[f.statement_index]).contains(f)
        }),
    decreases statements.len(),
{
    let before = findings_on(statements.drop_last());
    let last = statement_findings(statements.len() - 1, statements.last());
    if i < before.len() {
        finding_names_its_statement(statements.drop_last(), i);
        assert(findings_on(statements)[i] == before[i]);
    } else {
        assert(findings_on(statements)[i] == last[i - before.len()]);
        statement_findings_are_labelled(
            statements.len() - 1,
            statements.last(),
            i - before.len(),
        );
    }
}

/// Each finding on a statement taken alone is among the findings on the policy:
/// no statement hides the risks of another.
pub proof fn findings_are_independent(statements: Seq<StatementView>, index: int, f: FindingView)
    requires
        0 <= index < statements.len(),
        statement_findings(index, statements[index]).contains(f),
    ensures
        findings_on(statements).contains(f),
    decreases statements.len(),
{
    let before = findings_on(statements.drop_last());
    let last = statement_findings(statements.len() - 1, statements.last());
    if index < statements.len() - 1 {
        findings_are_independent(statements.drop_last(), index, f);
        let k = before.index_of(f);
        assert(findings_on(statements)[k] == f);
    } else {
        let k = last.index_of(f);
        assert(findings_on(statements)[before.len() + k] == f);
    }
}

/// The findings come in the order of the statements.
pub proof fn findings_are_in_statement_order(statements: Seq<StatementView>, i: int, j: int)
    requires
        0 <= i <= j < findings_on(statements).len(),
    ensures
        findings_on(statements)[i].statement_index <= findings_on(statements)[j].statement_index,
    decreases statements.len(),
{
    let before = findings_on(statements.drop_last());
    let last = statement_findings(statements.len() - 1, statements.last());
    finding_names_its_statement(statements, i);
    if j < before.len() {
        findings_are_in_statement_order(statements.drop_last(), i, j);
        assert(findings_on(statements)[i] == before[i]);
        assert(findings_on(statements)[j] == before[j]);
    } else {
        assert(findings_on(statements)[j] == last[j - before.len()]);
        statement_findings_are_labelled(
            statements.len() - 1,
            statements.last(),
            j - before.len(),
        );
    }
}

/// Findings with the indices of their statements moved up by `n`.
pub open spec fn shifted(findings: Seq<FindingView>, n: int) -> Seq<FindingView> {
    findings.map_values(
        |f: FindingView| FindingView { statement_index: f.statement_index + n, ..f },
    )
}

/// The findings on two lists of statements joined are those on the first, then
/// those on the second with their indices moved up by the length of the first.
pub proof fn findings_on_joined_lists(a: Seq<StatementView>, b: Seq<StatementView>)
    ensures
        findings_on(a + b) == findings_on(a) + shifted(findings_on(b), a.len() as int),
    decreases b.len(),
{
    let n = a.len() as int;
    if b.len() == 0 {
        assert(a + b =~= a);
        assert(findings_on(a + b) =~= findings_on(a) + shifted(findings_on(b), n));
    } else {
        let rest = b.drop_last();
        let last = statement_findings(b.len() - 1, b.last());
        findings_on_joined_lists(a, rest);
        assert((a + b).drop_last() =~= a + rest);
        statement_findings_shift(b.len() - 1, b.last(), n);
        assert(shifted(findings_on(rest) + last, n) =~= shifted(findings_on(rest), n) + shifted(
            last,
            n,
        ));
        assert(findings_on(a + b) =~= findings_on(a) + shifted(findings_on(b), n));
    }
}

/// The findings on a statement depend on its place only through the index that
/// they carry.
proof fn statement_findings_shift(index: int, stmt: StatementView, n: int)
    ensures
        statement_findings(index + n, stmt) == shifted(statement_findings(index, stmt), n),
{
    assert(statement_findings(index + n, stmt) =~= shifted(statement_findings(index, stmt), n));
}

/// No two rules have the same name.
proof fn rule_names_differ()
    ensures
        "wildcard-action"@ != "unconstrained-resource"@,
        "wildcard-action"@ != "sensitive-action-no-condition"@,
        "wildcard-action"@ != "wildcard-principal"@,
        "wildcard-action"@ != "notaction-with-allow"@,
        "wildcard-action"@ != "notresource-with-allow"@,
        "unconstrained-resource"@ != "sensitive-action-no-condition"@,
        "unconstrained-resource"@ != "wildcard-principal"@,
        "unconstrained-resource"@ != "notaction-with-allow"@,
        "unconstrained-resource"@ != "notresource-with-allow"@,
        "sensitive-action-no-condition"@ != "wildcard-principal"@,
        "sensitive-action-no-condition"@ != "notaction-with-allow"@,
        "sensitive-action-no-condition"@ != "notresource-with-allow"@,
        "wildcard-principal"@ != "notaction-with-allow"@,
        "wildcard-principal"@ != "notresource-with-allow"@,
        "notaction-with-allow"@ != "notresource-with-allow"@,
{
    reveal_strlit("wildcard-action");
    reveal_strlit("unconstrained-resource");
    reveal_strlit("sensitive-action-no-condition");
    reveal_strlit("wildcard-principal");
    reveal_strlit("notaction-with-allow");
    reveal_strlit("notresource-with-allow");
    assert("wildcard-action"@.len() == 15);
    assert("unconstrained-resource"@.len() == 22);
    assert("sensitive-action-no-condition"@.len() == 29);
    assert("wildcard-principal"@.len() == 18);
    assert("notaction-with-allow"@.len() == 20);
    assert("notresource-with-allow"@.len() == 22);
    assert("unconstrained-resource"@[0] != "notresource-with-allow"@[0]);
}

/// A statement has at most one finding of each rule.
pub proof fn each_rule_fires_once(index: int, stmt: StatementView, i: int, j: int)
    requires
        0 <= i < j < statement_findings(index, stmt).len(),
    ensures
        statement_findings(index, stmt)[i].rule != statement_findings(index, stmt)[j].rule,
{
    rules_in_order(
        listed(wildcard_action(index, stmt)),
        listed(unconstrained_resource(index, stmt)),
        listed(sensitive_action_without_condition(index, stmt)),
        listed(wildcard_principal(index, stmt)),
        listed(notaction_with_allow(index, stmt)),
        listed(notresource_with_allow(index, stmt)),
        i,
        j,
    );
}

/// Of six sequences of at most one finding, two positions in their concatenation
/// lie in two different ones.
proof fn rules_in_order(
    a: Seq<FindingView>,
    b: Seq<FindingView>,
    c: Seq<FindingView>,
    d: Seq<FindingView>,
    e: Seq<FindingView>,
    f: Seq<FindingView>,
    i: int,
    j: int,
)
    requires
        a.len() <= 1 && b.len() <= 1 && c.len() <= 1 && d.len() <= 1 && e.len() <= 1 && f.len()
            <= 1,
        a.len() == 1 ==> a[0].rule == "wildcard-action"@,
        b.len() == 1 ==> b[0].rule == "unconstrained-resource"@,
        c.len() == 1 ==> c[0].rule == "sensitive-action-no-condition"@,
        d.len() == 1 ==> d[0].rule == "wildcard-principal"@,
        e.len() == 1 ==> e[0].rule == "notaction-with-allow"@,
        f.len() == 1 ==> f[0].rule == "notresource-with-allow"@,
        0 <= i < j < (a + b + c + d + e + f).len(),
    ensures
        (a + b + c + d + e + f)[i].rule != (a + b + c + d + e + f)[j].rule,
{
    rule_names_differ();
}

/// `wildcard-action` and `unconstrained-resource` are never both reported on one
/// statement.
pub proof fn wildcard_action_subsumes_unconstrained_resource(index: int, stmt: StatementView)
    ensures
        wildcard_action(index, stmt) is None || unconstrained_resource(index, stmt) is None,
{
}

/// `Action: "*"` is critical exactly where the resource is unconstrained, and
/// high where it is scoped.
pub proof fn wildcard_action_severity(index: int, stmt: StatementView)
    requires
        allows(stmt),
        names_every_action(stmt),
    ensures
        wildcard_action(index, stmt) is Some,
        wildcard_action(index, stmt)->0.severity == if unconstrained(stmt) {
            Severity::Critical
        } else {
            Severity::High
        },
{
}

/// A statement whose every action is a read-only one is exempt from
/// `unconstrained-resource`.
pub proof fn read_only_statement_is_exempt(index: int, stmt: StatementView)
    requires
        forall|i: int| 0 <= i < stmt.actions.len() ==> is_safe_read(#[trigger] stmt.actions[i]),
    ensures
        unconstrained_resource(index, stmt) is None,
{
}

/// The exemption is lost with a single action that is not read-only, whatever the
/// other actions are.
pub proof fn one_mutating_action_ends_the_exemption(index: int, stmt: StatementView, i: int)
    requires
        allows(stmt),
        unconstrained(stmt),
        !names_every_action(stmt),
        0 <= i < stmt.actions.len(),
        !is_safe_read(stmt.actions[i]),
    ensures
        unconstrained_resource(index, stmt) is Some,
        unconstrained_resource(index, stmt)->0.severity == Severity::Medium,
{
}

/// A statement that lists no action, only what it does not apply to, is judged by
/// its `NotAction` alone and not also for an empty list of actions.
pub proof fn bare_notaction_is_named_once(index: int, stmt: StatementView)
    requires
        allows(stmt),
        stmt.actions.len() == 0,
        stmt.not_actions.len() > 0,
    ensures
        notaction_with_allow(index, stmt) is Some,
        wildcard_action(index, stmt) is None,
        unconstrained_resource(index, stmt) is None,
        sensitive_action_without_condition(index, stmt) is None,
{
    reveal(Seq::filter);
}

/// Sensitive actions are flagged exactly where an `Allow` statement without a
/// condition grants one.
pub proof fn sensitive_action_needs_a_condition(index: int, stmt: StatementView)
    ensures
        sensitive_action_without_condition(index, stmt) is Some <==> allows(stmt)
            && !stmt.has_condition && exists|i: int|
            0 <= i < stmt.actions.len() && is_sensitive(#[trigger] stmt.actions[i]),
{
    filter_is_empty(stmt.actions, |a: Seq<char>| is_sensitive(a));
}

/// A filter keeps something if and only if something passes it.
proof fn filter_is_empty<A>(s: Seq<A>, p: spec_fn(A) -> bool)
    ensures
        s.filter(p).len() > 0 <==> exists|i: int| 0 <= i < s.len() && p(#[trigger] s[i]),
    decreases s.len(),
{
    reveal(Seq::filter);
    if s.len() > 0 {
        let rest = s.drop_last();
        filter_is_empty(rest, p);
        if exists|i: int| 0 <= i < rest.len() && p(#[trigger] rest[i]) {
            let i = choose|i: int| 0 <= i < rest.len() && p(#[trigger] rest[i]);
            assert(p(s[i]));
        }
        if exists|i: int| 0 <= i < s.len() && p(#[trigger] s[i]) {
            let i = choose|i: int| 0 <= i < s.len() && p(#[trigger] s[i]);
            if i < rest.len() {
                assert(p(rest[i]));
            } else {
                assert(p(s.last()));
            }
        }
        if p(s.last()) {
            assert(p(s[s.len() - 1]));
        }
    }
}

/// Every entry of the list of sensitive actions is itself sensitive.
pub proof fn listed_actions_are_sensitive(i: int)
    requires
        0 <= i < SENSITIVE_ACTIONS@.len(),
    ensures
        is_sensitive(SENSITIVE_ACTIONS@[i]@),
{
    pattern_matches_itself(SENSITIVE_ACTIONS@[i]@);
}

/// `Action: "*"` without a condition grants sensitive actions too, and is flagged
/// for that as well.
pub proof fn wildcard_action_is_also_sensitive(index: int, stmt: StatementView)
    requires
        allows(stmt),
        names_every_action(stmt),
        !stmt.has_condition,
    ensures
        wildcard_action(index, stmt) is Some,
        sensitive_action_without_condition(index, stmt) is Some,
{
    star_matches_everything(SENSITIVE_ACTIONS@[0]@);
    assert(overlap("*"@, SENSITIVE_ACTIONS@[0]@));
    let i = stmt.actions.index_of("*"@);
    assert(is_sensitive(stmt.actions[i]));
    sensitive_action_needs_a_condition(index, stmt);
}

/// Every action of the IAM service is sensitive, in any case, through the entry
/// `iam:*`.
pub proof fn iam_actions_are_sensitive(action: Seq<char>)
    requires
        "iam:"@.is_prefix_of(lowercase(action)),
    ensures
        is_sensitive(action),
{
    reveal_strlit("iam:*");
    reveal_strlit("iam:");
    let entry = SENSITIVE_ACTIONS@[0]@;
    let prefix = "iam:"@;
    let star = seq!['*'];
    assert(lowercase(entry) =~= prefix + star);
    let text = lowercase(action);
    plain_prefix(prefix, star, text);
    star_matches(text.skip(prefix.len() as int));
    assert(glob_matches(entry, action));
    assert(overlap(action, SENSITIVE_ACTIONS@[0]@));
}

/// `*` after the beginning of a sensitive action is sensitive: a grant of a whole
/// service, such as `kms:*`, is caught by any entry of that service.
pub proof fn wildcard_over_a_listed_action_is_sensitive(action: Seq<char>, i: int, n: int)
    requires
        0 <= i < SENSITIVE_ACTIONS@.len(),
        0 <= n <= lowercase(SENSITIVE_ACTIONS@[i]@).len(),
        plain(lowercase(SENSITIVE_ACTIONS@[i]@).take(n)),
        lowercase(action) == lowercase(SENSITIVE_ACTIONS@[i]@).take(n).push('*'),
    ensures
        is_sensitive(action),
{
    let entry = SENSITIVE_ACTIONS@[i]@;
    let text = lowercase(entry);
    let prefix = text.take(n);
    let star = seq!['*'];
    assert(lowercase(action) =~= prefix + star);
    assert(prefix =~= text.subrange(0, prefix.len() as int));
    plain_prefix(prefix, star, text);
    star_matches(text.skip(n));
    assert(glob_matches(action, entry));
    assert(overlap(action, SENSITIVE_ACTIONS@[i]@));
}

/// `*` matches any characters.
proof fn star_matches(text: Seq<char>)
    ensures
        matches_pattern(seq!['*'], text),
{
    let star = seq!['*'];
    assert(text.skip(text.len() as int) =~= Seq::<char>::empty());
    assert(star.drop_first() =~= Seq::<char>::empty());
    assert(matches_pattern(star.drop_first(), text.skip(text.len() as int)));
}

/// A principal that holds `*`, or a list with `*` in it, under any name stands
/// for everyone.
pub proof fn star_under_any_name_is_everyone(principal: JsonView, name: Seq<char>)
    requires
        principal.field(name) is Some,
        is_or_lists_star(principal.field(name)->0),
    ensures
        is_everyone(principal),
{
    let members = principal->Object_0;
    lookup_is_a_member(members, name);
}

/// What is found under a name is the value of a member.
proof fn lookup_is_a_member(members: Seq<MemberView>, name: Seq<char>)
    requires
        lookup(members, name) is Some,
    ensures
        exists|i: int|
            0 <= i < members.len() && (#[trigger] members[i]).value == lookup(members, name)->0,
    decreases members.len(),
{
    if members[0].name == name {
        assert(members[0].value == lookup(members, name)->0);
    } else {
        let rest = members.drop_first();
        lookup_is_a_member(rest, name);
        let i = choose|i: int|
            0 <= i < rest.len() && (#[trigger] rest[i]).value == lookup(rest, name)->0;
        assert(members[i + 1] == rest[i]);
    }
}

/// Statements that differ only in the case of their effect have the same
/// findings.
pub proof fn effect_case_is_ignored(index: int, stmt: StatementView, effect: Seq<char>)
    requires
        ascii_lowercase(effect) == ascii_lowercase(stmt.effect),
    ensures
        statement_findings(index, StatementView { effect, ..stmt }) == statement_findings(
            index,
            stmt,
        ),
{
}

/// Actions that differ only in the case of ASCII letters are sensitive alike and
/// read-only alike.
pub proof fn action_case_is_ignored(a: Seq<char>, b: Seq<char>)
    requires
        ascii_lowercase(a) == ascii_lowercase(b),
    ensures
        is_sensitive(a) == is_sensitive(b),
        is_safe_read(a) == is_safe_read(b),
{
    ascii_case_folds(a, b);
    assert forall|i: int| 0 <= i < SENSITIVE_ACTIONS@.len() implies overlap(
        a,
        (#[trigger] SENSITIVE_ACTIONS@[i])@,
    ) == overlap(b, SENSITIVE_ACTIONS@[i]@) by {}
    verb_case(a, b);
}

/// The verbs of actions that differ only in the case of ASCII letters have the
/// same lowercase form.
proof fn verb_case(a: Seq<char>, b: Seq<char>)
    requires
        ascii_lowercase(a) == ascii_lowercase(b),
    ensures
        lowercase(verb_of(a)) == lowercase(verb_of(b)),
{
    let la = ascii_lowercase(a);
    let lb = ascii_lowercase(b);
    assert(a.len() == la.len() == lb.len() == b.len());
    assert forall|i: int| 0 <= i < a.len() implies (a[i] == ':') == (b[i] == ':') by {
        assert(la[i] == ascii_lower(a[i]));
        assert(lb[i] == ascii_lower(b[i]));
    }
    a.index_of_first_ensures(':');
    b.index_of_first_ensures(':');
    if a.contains(':') {
        let i = a.index_of_first(':')->0;
        assert(b[i] == ':');
        let j = b.index_of_first(':')->0;
        assert(a[j] == ':');
        assert(i == j);
        let va = a.skip(i + 1);
        let vb = b.skip(i + 1);
        assert(ascii_lowercase(va) =~= la.skip(i + 1));
        assert(ascii_lowercase(vb) =~= lb.skip(i + 1));
        ascii_case_folds(va, vb);
    } else {
        if b.contains(':') {
            let j = b.index_of_first(':')->0;
            assert(a[j] == ':');
        }
        ascii_case_folds(a, b);
    }
}

/// Two lists of findings block a run together if and only if one of them does.
pub proof fn blocking_of_concatenation(a: Seq<FindingView>, b: Seq<FindingView>)
    ensures
        blocking(a + b) <==> blocking(a) || blocking(b),
{
    let both = a + b;
    if blocking(a) {
        let i = choose|i: int|
            0 <= i < a.len() && ((#[trigger] a[i]).severity == Severity::High || a[i].severity
                == Severity::Critical);
        assert(both[i] == a[i]);
    }
    if blocking(b) {
        let i = choose|i: int|
            0 <= i < b.len() && ((#[trigger] b[i]).severity == Severity::High || b[i].severity
                == Severity::Critical);
        assert(both[a.len() + i] == b[i]);
    }
    if blocking(both) {
        let i = choose|i: int|
            0 <= i < both.len() && ((#[trigger] both[i]).severity == Severity::High
                || both[i].severity == Severity::Critical);
        if i < a.len() {
            assert(both[i] == a[i]);
        } else {
            assert(both[i] == b[i - a.len()]);
        }
    }
}

/// The severity of a finding of a statement tells its rule: medium means
/// `unconstrained-resource`, every other rule is high or critical.
proof fn statement_finding_severity(index: int, stmt: StatementView, i: int)
    requires
        0 <= i < statement_findings(index, stmt).len(),
    ensures
        ({
            let f = statement_findings(index, stmt)[i];
            &&& f.rule == "unconstrained-resource"@ ==> f.severity == Severity::Medium
            &&& f.rule != "unconstrained-resource"@ ==> f.severity == Severity::High || f.severity
                == Severity::Critical
        }),
{
    rule_names_differ();
}

/// A finding of the linter is medium exactly if its rule is
/// `unconstrained-resource`; those of every other rule are high or critical.
pub proof fn severity_follows_rule(statements: Seq<StatementView>, i: int)
    requires
        0 <= i < findings_on(statements).len(),
    ensures
        ({
            let f = findings_on(statements)[i];
            &&& f.rule == "unconstrained-resource"@ ==> f.severity == Severity::Medium
            &&& f.rule != "unconstrained-resource"@ ==> f.severity == Severity::High || f.severity
                == Severity::Critical
        }),
{
    finding_names_its_statement(statements, i);
    let f = findings_on(statements)[i];
    let alone = statement_findings(f.statement_index, statements[f.statement_index]);
    statement_finding_severity(
        f.statement_index,
        statements[f.statement_index],
        alone.index_of(f),
    );
}

/// A policy fails a run exactly if it has a finding of a rule other than
/// `unconstrained-resource`.
pub proof fn only_unconstrained_resource_does_not_block(statements: Seq<StatementView>)
    ensures
        blocking(findings_on(statements)) <==> exists|i: int|
            0 <= i < findings_on(statements).len() && (#[trigger] findings_on(statements)[i]).rule
                != "unconstrained-resource"@,
{
    let all = findings_on(statements);
    assert forall|i: int| 0 <= i < all.len() implies ((#[trigger] all[i]).rule
        != "unconstrained-resource"@) == (all[i].severity == Severity::High || all[i].severity
        == Severity::Critical) by {
        severity_follows_rule(statements, i);
    }
}

/// The counts in the last line of the report add up to the number of findings.
pub proof fn summary_counts_every_finding(statements: Seq<StatementView>)
    ensures
        ({
            let all = findings_on(statements);
            count(all, Severity::Critical) + count(all, Severity::High) + count(
                all,
                Severity::Medium,
            ) == all.len()
        }),
{
    let all = findings_on(statements);
    assert forall|i: int| 0 <= i < all.len() implies (#[trigger] all[i]).severity
        != Severity::Low by {
        severity_follows_rule(statements, i);
    }
    counts_add_up(all);
}

proof fn counts_add_up(all: Seq<FindingView>)
    requires
        forall|i: int| 0 <= i < all.len() ==> (#[trigger] all[i]).severity != Severity::Low,
    ensures
        count(all, Severity::Critical) + count(all, Severity::High) + count(all, Severity::Medium)
            == all.len(),
    decreases all.len(),
{
    reveal(Seq::filter);
    if all.len() > 0 {
        let rest = all.drop_last();
        assert forall|i: int| 0 <= i < rest.len() implies (#[trigger] rest[i]).severity
            != Severity::Low by {
            assert(rest[i] == all[i]);
        }
        counts_add_up(rest);
        assert(all.last() == all[all.len() - 1]);
    }
}

/// A bare string and an array of that string alone mean the same.
pub proof fn bare_string_is_a_list_of_one(t: Seq<char>)
    ensures
        listed_texts(Some(JsonView::Text(t))) == listed_texts(
            Some(JsonView::Array(seq![JsonView::Text(t)])),
        ),
{
    reveal(Seq::filter);
    let one = seq![JsonView::Text(t)];
    let is_text = |v: JsonView| v is Text;
    assert(one.drop_last() =~= Seq::<JsonView>::empty());
    assert(one.drop_last().filter(is_text) =~= Seq::<JsonView>::empty());
    assert(one.filter(is_text) =~= one);
    assert(texts_among(one) =~= seq![t]);
}

/// Documents that differ only in whether a single statement stands alone or in
/// an array say the same.
pub proof fn bare_statement_is_a_list_of_one(
    bare: JsonView,
    list: JsonView,
    members: Seq<MemberView>,
)
    requires
        bare.field("Version"@) == list.field("Version"@),
        bare.field("Statement"@) == Some(JsonView::Object(members)),
        list.field("Statement"@) == Some(JsonView::Array(seq![JsonView::Object(members)])),
    ensures
        policy_of(bare) == policy_of(list),
{
}

/// A statement without a `Resource` key has no resources and is unconstrained; it
/// is told apart from one with an empty list, which is not.
pub proof fn absent_resource_is_not_an_empty_one(raw: JsonView)
    ensures
        statement_of(raw).resource_present == (raw.field("Resource"@) is Some),
        raw.field("Resource"@) is None ==> statement_of(raw).resources.len() == 0 && unconstrained(
            statement_of(raw),
        ),
        raw.field("Resource"@) == Some(JsonView::Array(Seq::empty())) ==> statement_of(
            raw,
        ).resources.len() == 0 && !unconstrained(statement_of(raw)),
{
    reveal(Seq::filter);
}

/// A `Condition` counts exactly if it is an object with members: an empty one is
/// no condition.
pub proof fn empty_condition_is_no_condition(raw: JsonView)
    ensures
        statement_of(raw).has_condition <==> raw.field("Condition"@) is Some && raw.field(
            "Condition"@,
        )->0 is Object && raw.field("Condition"@)->0->Object_0.len() > 0,
{
}

/// A document with an array of statements is a policy exactly if each has an
/// `Effect`; the policy then has one statement for each, in the same order.
pub proof fn policy_has_every_statement(root: JsonView, raws: Seq<JsonView>)
    requires
        root.field("Statement"@) == Some(JsonView::Array(raws)),
    ensures
        policy_of(root) is Ok <==> forall|i: int|
            0 <= i < raws.len() ==> has_effect(#[trigger] raws[i]),
        policy_of(root) is Ok ==> policy_of(root)->Ok_0.statements.len() == raws.len(),
        policy_of(root) is Ok ==> forall|i: int|
            0 <= i < raws.len() ==> #[trigger] policy_of(root)->Ok_0.statements[i]
                == statement_of(raws[i]),
{
}

/// Where a statement has no `Effect`, the message names the first such statement.
pub proof fn error_names_the_first_statement_without_effect(
    root: JsonView,
    raws: Seq<JsonView>,
    index: int,
)
    requires
        root.field("Statement"@) == Some(JsonView::Array(raws)),
        first_without_effect(raws, index),
    ensures
        policy_of(root) == Err::<PolicyView, Seq<char>>(
            missing_effect(index as nat),
        ),
{
    let other = choose|other: int| first_without_effect(raws, other);
    assert(first_without_effect(raws, other));
    if other < index {
        assert(has_effect(raws[other]));
    } else if other > index {
        assert(has_effect(raws[index]));
    }
}

} // verus!
