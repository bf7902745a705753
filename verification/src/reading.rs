//! What is read from a document.
#![allow(unused_imports)]

use crate::findings::{blocking, finding_views, Finding, Severity};
use crate::laws::{error_names_the_first_statement_without_effect, findings_are_independent};
use crate::json::{json_text, lookup, Json, JsonView, MemberView};
use crate::outcomes::{
    every_rule_is_reported, filter_joined, filter_one, sensitive_action_is_reported,
    wildcard_principal_is_reported,
};
use crate::policy::{
    empty_statement, first_without_effect, has_effect, listed_texts, policy_of, policy_of_text,
    statement_of, texts_among, Policy, PolicyView, Statement,
};
use crate::rules::{
    findings_on, is_sensitive, sensitive_action_without_condition, statement_findings,
    wildcard_principal,
};
use crate::text::{ascii_lowercase, decimal, texts};
use vstd::prelude::*;

verus! {

/// Of an array of strings every string is kept, in order.
pub proof fn every_string_is_kept(items: Seq<JsonView>)
    requires
        forall|i: int| 0 <= i < items.len() ==> #[trigger] items[i] is Text,
    ensures
        listed_texts(Some(JsonView::Array(items))).len() == items.len(),
        forall|i: int|
            0 <= i < items.len() ==> JsonView::Text(
                #[trigger] listed_texts(Some(JsonView::Array(items)))[i],
            ) == items[i],
{
    filter_keeps_all(items, |v: JsonView| v is Text);
}

proof fn filter_keeps_all<A>(s: Seq<A>, p: spec_fn(A) -> bool)
    requires
        forall|i: int| 0 <= i < s.len() ==> p(#[trigger] s[i]),
    ensures
        s.filter(p) == s,
    decreases s.len(),
{
    reveal(Seq::filter);
    if s.len() > 0 {
        filter_keeps_all(s.drop_last(), p);
        assert(p(s[s.len() - 1]));
        assert(s.filter(p) =~= s);
    } else {
        assert(s.filter(p) =~= s);
    }
}

/// The strings of two joined arrays are those of the first, then those of the second;
/// of an array of one value it is that value, if it is a string.
pub proof fn strings_of_joined_arrays(a: Seq<JsonView>, b: Seq<JsonView>, value: JsonView)
    ensures
        listed_texts(Some(JsonView::Array(a + b))) == listed_texts(Some(JsonView::Array(a)))
            + listed_texts(Some(JsonView::Array(b))),
        value is Text ==> listed_texts(Some(JsonView::Array(seq![value]))) == seq![value->Text_0],
        !(value is Text) ==> listed_texts(Some(JsonView::Array(seq![value]))) == Seq::<
            Seq<char>,
        >::empty(),
        listed_texts(Some(JsonView::Array(Seq::empty()))) == Seq::<Seq<char>>::empty(),
{
    let p = |v: JsonView| v is Text;
    filter_joined(a, b, p);
    filter_one(value, p);
    reveal(Seq::filter);
    assert(texts_among(a + b) =~= texts_among(a) + texts_among(b));
    assert(texts_among(seq![value]) =~= if value is Text {
        seq![value->Text_0]
    } else {
        Seq::empty()
    });
    assert(texts_among(Seq::empty()) =~= Seq::<Seq<char>>::empty());
}

/// A bare string gives that string, and a value that is neither a string nor an array,
/// or is absent, gives nothing.
pub proof fn other_values_list_nothing(t: Seq<char>, value: JsonView)
    ensures
        listed_texts(Some(JsonView::Text(t))) == seq![t],
        !(value is Text) && !(value is Array) ==> listed_texts(Some(value)) == Seq::<
            Seq<char>,
        >::empty(),
        listed_texts(None) == Seq::<Seq<char>>::empty(),
{
}

/// Each field of a statement is read from the key of that name.
pub proof fn each_key_is_read(raw: JsonView)
    ensures
        statement_of(raw).actions == listed_texts(raw.field("Action"@)),
        statement_of(raw).not_actions == listed_texts(raw.field("NotAction"@)),
        statement_of(raw).resources == listed_texts(raw.field("Resource"@)),
        statement_of(raw).not_resources == listed_texts(raw.field("NotResource"@)),
        statement_of(raw).resource_present <==> raw.field("Resource"@) is Some,
        statement_of(raw).not_resource_present <==> raw.field("NotResource"@) is Some,
        statement_of(raw).principal == raw.field("Principal"@),
        raw.field("Effect"@) is Some && raw.field("Effect"@)->0 is Text ==> statement_of(raw).effect
            == raw.field("Effect"@)->0->Text_0,
        raw.field("Sid"@) is Some && raw.field("Sid"@)->0 is Text ==> statement_of(raw).sid == Some(
            raw.field("Sid"@)->0->Text_0,
        ),
        raw.field("Sid"@) is None || !(raw.field("Sid"@)->0 is Text) ==> statement_of(
            raw,
        ).sid is None,
        statement_of(raw).has_condition <==> raw.field("Condition"@) is Some && raw.field(
            "Condition"@,
        )->0 is Object && raw.field("Condition"@)->0->Object_0.len() > 0,
{
}

/// A statement has an effect exactly if there is a string under `Effect`.
pub proof fn effect_is_a_string(raw: JsonView)
    ensures
        has_effect(raw) <==> raw.field("Effect"@) is Some && raw.field("Effect"@)->0 is Text,
{
}

/// Only an object has fields, and it has those of its members.
pub proof fn fields_are_members(value: JsonView, name: Seq<char>)
    ensures
        !(value is Object) ==> value.field(name) is None,
        value is Object ==> (value.field(name) is Some <==> exists|i: int|
            0 <= i < value->Object_0.len() && (#[trigger] value->Object_0[i]).name == name),
        value.field(name) is Some ==> exists|i: int|
            0 <= i < value->Object_0.len() && (#[trigger] value->Object_0[i]).name == name
                && value->Object_0[i].value == value.field(name)->0,
{
    if value is Object {
        members_found(value->Object_0, name);
    }
}

proof fn members_found(members: Seq<MemberView>, name: Seq<char>)
    ensures
        lookup(members, name) is Some <==> exists|i: int|
            0 <= i < members.len() && (#[trigger] members[i]).name == name,
        lookup(members, name) is Some ==> exists|i: int|
            0 <= i < members.len() && (#[trigger] members[i]).name == name && members[i].value
                == lookup(members, name)->0,
    decreases members.len(),
{
    if members.len() > 0 {
        let rest = members.drop_first();
        members_found(rest, name);
        if members[0].name == name {
            assert(members[0].value == lookup(members, name)->0);
        } else {
            if lookup(members, name) is Some {
                let i = choose|i: int|
                    0 <= i < rest.len() && (#[trigger] rest[i]).name == name && rest[i].value
                        == lookup(rest, name)->0;
                assert(members[i + 1] == rest[i]);
            }
            if exists|i: int| 0 <= i < members.len() && (#[trigger] members[i]).name == name {
                let i = choose|i: int|
                    0 <= i < members.len() && (#[trigger] members[i]).name == name;
                assert(rest[i - 1] == members[i]);
            }
        }
    }
}

/// A document without `Statement`, or with one that is neither an object nor an
/// array, is refused with the message for it.
pub proof fn documents_without_statements_are_refused(root: JsonView)
    ensures
        root.field("Statement"@) is None ==> policy_of(root) == Err::<PolicyView, Seq<char>>(
            "no top-level \"Statement\" key found — is this an IAM policy document?"@,
        ),
        root.field("Statement"@) is Some && !(root.field("Statement"@)->0 is Array) && !(root.field(
            "Statement"@,
        )->0 is Object) ==> policy_of(root) == Err::<PolicyView, Seq<char>>(
            "\"Statement\" must be an object or an array of objects"@,
        ),
{
}

/// A document whose statements all have an effect is the policy of these statements,
/// in order, with the document's `Version`.
pub proof fn documents_are_read_whole(root: JsonView, raws: Seq<JsonView>)
    requires
        root.field("Statement"@) == Some(JsonView::Array(raws)),
        forall|i: int|
            0 <= i < raws.len() ==> (#[trigger] raws[i]).field("Effect"@) is Some && raws[i].field(
                "Effect"@,
            )->0 is Text,
    ensures
        policy_of(root) is Ok,
        policy_of(root)->Ok_0.statements.len() == raws.len(),
        forall|i: int|
            0 <= i < raws.len() ==> #[trigger] policy_of(root)->Ok_0.statements[i] == statement_of(
                raws[i],
            ),
        root.field("Version"@) is Some && root.field("Version"@)->0 is Text
            ==> policy_of(root)->Ok_0.version == Some(root.field("Version"@)->0->Text_0),
        root.field("Version"@) is None || !(root.field("Version"@)->0 is Text)
            ==> policy_of(root)->Ok_0.version is None,
{
    assert forall|i: int| 0 <= i < raws.len() implies has_effect(#[trigger] raws[i]) by {
        assert(raws[i].field("Effect"@) is Some);
    }
}

/// A document with a statement without an effect is refused, with a message that holds
/// the place of the first such statement.
pub proof fn first_missing_effect_is_named(root: JsonView, raws: Seq<JsonView>, index: int)
    requires
        root.field("Statement"@) == Some(JsonView::Array(raws)),
        0 <= index < raws.len(),
        raws[index].field("Effect"@) is None || !(raws[index].field("Effect"@)->0 is Text),
        forall|i: int|
            0 <= i < index ==> (#[trigger] raws[i]).field("Effect"@) is Some && raws[i].field(
                "Effect"@,
            )->0 is Text,
    ensures
        policy_of(root) == Err::<PolicyView, Seq<char>>(
            "statement "@ + decimal(index as nat) + ": missing required \"Effect\" field"@,
        ),
{
    assert forall|i: int| 0 <= i < index implies has_effect(#[trigger] raws[i]) by {
        assert(raws[i].field("Effect"@) is Some);
    }
    assert(first_without_effect(raws, index));
    error_names_the_first_statement_without_effect(root, raws, index);
}

/// A text that the parser refuses is refused with the parser's message; a text that it
/// accepts is read as the value that it stands for.
pub proof fn texts_are_read_through_the_parser(content: Seq<char>)
    ensures
        json_text(content) is Err ==> policy_of_text(content) == Err::<PolicyView, Seq<char>>(
            "not valid JSON: "@ + json_text(content)->Err_0,
        ),
        json_text(content) is Ok ==> policy_of_text(content) == policy_of(json_text(content)->Ok_0),
{
}

/// The view of a list of strings has the text of each, in order.
pub proof fn texts_are_the_strings(items: Seq<String>)
    ensures
        texts(items).len() == items.len(),
        forall|i: int| 0 <= i < items.len() ==> #[trigger] texts(items)[i] == items[i]@,
{
}

/// The view of a JSON value has every part of it, in order.
pub proof fn json_view_is_faithful(j: Json)
    ensures
        match j {
            Json::Null => j@ == JsonView::Null,
            Json::Bool(b) => j@ == JsonView::Bool(b),
            Json::Number(t) => j@ == JsonView::Number(t@),
            Json::Text(t) => j@ == JsonView::Text(t@),
            Json::Array(items) => j@ is Array && j@->Array_0.len() == items@.len() && forall|
                i: int,
            |
                0 <= i < items@.len() ==> #[trigger] j@->Array_0[i] == items@[i]@,
            Json::Object(members) => j@ is Object && j@->Object_0.len() == members@.len()
                && forall|i: int|
                0 <= i < members@.len() ==> (#[trigger] j@->Object_0[i]).name == members@[i].name@
                    && j@->Object_0[i].value == members@[i].value@,
        },
{
}

/// The view of a statement has every field of it.
pub proof fn statement_view_is_faithful(s: Statement)
    ensures
        s@.sid == (match s.sid {
            Some(t) => Some(t@),
            None => None,
        }),
        s@.effect == s.effect@,
        s@.actions == texts(s.actions@),
        s@.not_actions == texts(s.not_actions@),
        s@.resources == texts(s.resources@),
        s@.resource_present == s.resource_present,
        s@.not_resources == texts(s.not_resources@),
        s@.not_resource_present == s.not_resource_present,
        s.principal is Some ==> s@.principal == Some(s.principal->0@),
        s.principal is None ==> s@.principal is None,
        s@.has_condition == s.has_condition,
{
}

/// The statement without any key has no effect, lists nothing and has no findings.
pub proof fn empty_statement_has_nothing(index: int)
    ensures
        empty_statement().sid is None && empty_statement().principal is None,
        empty_statement().effect.len() == 0,
        empty_statement().actions.len() == 0 && empty_statement().not_actions.len() == 0,
        empty_statement().resources.len() == 0 && empty_statement().not_resources.len() == 0,
        !empty_statement().resource_present && !empty_statement().not_resource_present,
        !empty_statement().has_condition,
        statement_findings(index, empty_statement()).len() == 0,
{
    reveal_strlit("Allow");
    assert(ascii_lowercase("Allow"@).len() == 5);
}

/// The view of a policy has its version and each of its statements, in order.
pub proof fn policy_view_is_faithful(p: Policy)
    ensures
        p@.version == (match p.version {
            Some(t) => Some(t@),
            None => None,
        }),
        p@.statements.len() == p.statements@.len(),
        forall|i: int|
            0 <= i < p.statements@.len() ==> #[trigger] p@.statements[i] == p.statements@[i]@,
{
}

/// The view of a finding has every field of it, and that of a list has every finding,
/// in order.
pub proof fn finding_view_is_faithful(f: Finding, findings: Seq<Finding>)
    ensures
        f@.statement_index == f.statement_index,
        f@.sid == (match f.sid {
            Some(t) => Some(t@),
            None => None,
        }),
        f@.rule == f.rule@,
        f@.severity == f.severity,
        f@.message == f.message@,
        finding_views(findings).len() == findings.len(),
        forall|i: int|
            0 <= i < findings.len() ==> #[trigger] finding_views(findings)[i] == findings[i]@,
{
}

/// A document that lets everyone in is flagged, whatever else it holds: where the
/// statement at `k` allows and its `Principal` is `*`, there is a critical finding on
/// it, and the run fails.
pub proof fn public_document_is_flagged(root: JsonView, raws: Seq<JsonView>, k: int)
    requires
        root.field("Statement"@) == Some(JsonView::Array(raws)),
        forall|i: int|
            0 <= i < raws.len() ==> (#[trigger] raws[i]).field("Effect"@) is Some && raws[i].field(
                "Effect"@,
            )->0 is Text,
        0 <= k < raws.len(),
        ascii_lowercase(raws[k].field("Effect"@)->0->Text_0) == "allow"@,
        raws[k].field("Principal"@) == Some(JsonView::Text("*"@)),
    ensures
        ({
            let findings = findings_on(policy_of(root)->Ok_0.statements);
            &&& exists|i: int|
                0 <= i < findings.len() && (#[trigger] findings[i]).statement_index == k
                    && findings[i].rule == "wildcard-principal"@ && findings[i].severity
                    == Severity::Critical
            &&& blocking(findings)
        }),
{
    documents_are_read_whole(root, raws);
    let statements = policy_of(root)->Ok_0.statements;
    let stmt = statements[k];
    assert(stmt == statement_of(raws[k]));
    each_key_is_read(raws[k]);
    wildcard_principal_is_reported(k, stmt);
    let f = wildcard_principal(k, stmt)->0;
    every_rule_is_reported(k, stmt, f);
    findings_are_independent(statements, k, f);
    let i = findings_on(statements).index_of(f);
    assert(findings_on(statements)[i].severity == Severity::Critical);
}

/// A document that grants a sensitive action without a condition is flagged, whatever
/// else it holds: where the statement at `k` allows, has no `Condition`, and the string
/// at `n` of its `Action` array is sensitive, there is a high finding on it, and the
/// run fails.
pub proof fn unconditional_grant_is_flagged(
    root: JsonView,
    raws: Seq<JsonView>,
    k: int,
    actions: Seq<JsonView>,
    n: int,
)
    requires
        root.field("Statement"@) == Some(JsonView::Array(raws)),
        forall|i: int|
            0 <= i < raws.len() ==> (#[trigger] raws[i]).field("Effect"@) is Some && raws[i].field(
                "Effect"@,
            )->0 is Text,
        0 <= k < raws.len(),
        ascii_lowercase(raws[k].field("Effect"@)->0->Text_0) == "allow"@,
        raws[k].field("Condition"@) is None,
        raws[k].field("Action"@) == Some(JsonView::Array(actions)),
        forall|i: int| 0 <= i < actions.len() ==> #[trigger] actions[i] is Text,
        0 <= n < actions.len(),
        is_sensitive(actions[n]->Text_0),
    ensures
        ({
            let findings = findings_on(policy_of(root)->Ok_0.statements);
            &&& exists|i: int|
                0 <= i < findings.len() && (#[trigger] findings[i]).statement_index == k
                    && findings[i].rule == "sensitive-action-no-condition"@
                    && findings[i].severity == Severity::High
            &&& blocking(findings)
        }),
{
    documents_are_read_whole(root, raws);
    let statements = policy_of(root)->Ok_0.statements;
    let stmt = statements[k];
    assert(stmt == statement_of(raws[k]));
    each_key_is_read(raws[k]);
    every_string_is_kept(actions);
    assert(JsonView::Text(stmt.actions[n]) == actions[n]);
    assert(is_sensitive(stmt.actions[n]));
    sensitive_action_is_reported(k, stmt);
    let f = sensitive_action_without_condition(k, stmt)->0;
    every_rule_is_reported(k, stmt, f);
    findings_are_independent(statements, k, f);
    let i = findings_on(statements).index_of(f);
    assert(findings_on(statements)[i].severity == Severity::High);
}

} // verus!
