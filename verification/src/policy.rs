//! Policy documents: statements in one normal form, and reading them from JSON.
use crate::json::{read_json, Json};
#[allow(unused_imports)]
use crate::json::{json_text, optional_view, text_of, JsonView};
use crate::text::{copy_optional, copy_texts, decimal_string};
#[allow(unused_imports)]
use crate::text::{decimal, optional_text, texts};
use vstd::prelude::*;

verus! {

/// One `Statement` entry of a policy document, in a form that does not depend on
/// whether `Action` or `Resource` was written as a bare string or as an array:
/// the policy grammar allows both, and real policies use both.
#[derive(Debug)]
pub struct Statement {
    pub sid: Option<String>,
    pub effect: String,
    pub actions: Vec<String>,
    pub not_actions: Vec<String>,
    /// The `Resource` values. Empty with `resource_present` false means that the
    /// key was absent, which leaves an `Allow` statement unconstrained for any
    /// action that does not itself require a resource.
    pub resources: Vec<String>,
    pub resource_present: bool,
    pub not_resources: Vec<String>,
    pub not_resource_present: bool,
    /// The `Principal` value as written, since a wildcard may stand inside
    /// `{"AWS": "*"}` or `{"AWS": ["*", ...]}` as well as alone.
    pub principal: Option<Json>,
    pub has_condition: bool,
}

/// A policy document.
#[derive(Debug)]
pub struct Policy {
    pub version: Option<String>,
    pub statements: Vec<Statement>,
}

/// The mathematical contents of a [`Statement`].
pub struct StatementView {
    pub sid: Option<Seq<char>>,
    pub effect: Seq<char>,
    pub actions: Seq<Seq<char>>,
    pub not_actions: Seq<Seq<char>>,
    pub resources: Seq<Seq<char>>,
    pub resource_present: bool,
    pub not_resources: Seq<Seq<char>>,
    pub not_resource_present: bool,
    pub principal: Option<JsonView>,
    pub has_condition: bool,
}

/// The mathematical contents of a [`Policy`].
pub struct PolicyView {
    pub version: Option<Seq<char>>,
    pub statements: Seq<StatementView>,
}

impl View for Statement {
    type V = StatementView;

    open spec fn view(&self) -> StatementView {
        StatementView {
            sid: optional_text(self.sid),
            effect: self.effect@,
            actions: texts(self.actions@),
            not_actions: texts(self.not_actions@),
            resources: texts(self.resources@),
            resource_present: self.resource_present,
            not_resources: texts(self.not_resources@),
            not_resource_present: self.not_resource_present,
            principal: match self.principal {
                Some(p) => Some(p@),
                None => None,
            },
            has_condition: self.has_condition,
        }
    }
}

impl View for Policy {
    type V = PolicyView;

    open spec fn view(&self) -> PolicyView {
        PolicyView {
            version: optional_text(self.version),
            statements: self.statements@.map_values(|s: Statement| s@),
        }
    }
}

impl Clone for Statement {
    fn clone(&self) -> (r: Self)
        ensures
            r@ == self@,
    {
        let principal = match &self.principal {
            Some(p) => Some(p.clone()),
            None => None,
        };
        Statement {
            sid: copy_optional(&self.sid),
            effect: self.effect.clone(),
            actions: copy_texts(&self.actions),
            not_actions: copy_texts(&self.not_actions),
            resources: copy_texts(&self.resources),
            resource_present: self.resource_present,
            not_resources: copy_texts(&self.not_resources),
            not_resource_present: self.not_resource_present,
            principal,
            has_condition: self.has_condition,
        }
    }
}

/// The statement without any key.
pub open spec fn empty_statement() -> StatementView {
    StatementView {
        sid: None,
        effect: Seq::empty(),
        actions: Seq::empty(),
        not_actions: Seq::empty(),
        resources: Seq::empty(),
        resource_present: false,
        not_resources: Seq::empty(),
        not_resource_present: false,
        principal: None,
        has_condition: false,
    }
}

impl Default for Statement {
    fn default() -> (r: Self)
        ensures
            r@ == empty_statement(),
    {
        let r = Statement {
            sid: None,
            effect: String::new(),
            actions: Vec::new(),
            not_actions: Vec::new(),
            resources: Vec::new(),
            resource_present: false,
            not_resources: Vec::new(),
            not_resource_present: false,
            principal: None,
            has_condition: false,
        };
        assert(texts(r.actions@) =~= Seq::<Seq<char>>::empty());
        assert(texts(r.not_actions@) =~= Seq::<Seq<char>>::empty());
        assert(texts(r.resources@) =~= Seq::<Seq<char>>::empty());
        assert(texts(r.not_resources@) =~= Seq::<Seq<char>>::empty());
        r
    }
}

impl Clone for Policy {
    fn clone(&self) -> (r: Self)
        ensures
            r@ == self@,
    {
        let mut statements: Vec<Statement> = Vec::new();
        for i in 0..self.statements.len()
            invariant
                statements@.len() == i,
                forall|k: int| 0 <= k < i ==> (#[trigger] statements@[k])@ == self.statements@[k]@,
        {
            statements.push(self.statements[i].clone());
        }
        let r = Policy { version: copy_optional(&self.version), statements };
        assert(r@.statements =~= self@.statements);
        r
    }
}

/// The texts among some values, in order; values of another kind are left out.
pub open spec fn texts_among(items: Seq<JsonView>) -> Seq<Seq<char>> {
    items.filter(|v: JsonView| v is Text).map_values(|v: JsonView| v->Text_0)
}

/// The texts of `Action`, `NotAction`, `Resource` or `NotResource`: of a string
/// that string alone, of an array its strings, of anything else nothing.
pub open spec fn listed_texts(value: Option<JsonView>) -> Seq<Seq<char>> {
    match value {
        Some(JsonView::Text(t)) => seq![t],
        Some(JsonView::Array(items)) => texts_among(items),
        _ => Seq::empty(),
    }
}

/// Whether a `Condition` value constrains at all: it is an object with members.
pub open spec fn constrains(value: Option<JsonView>) -> bool {
    match value {
        Some(JsonView::Object(members)) => members.len() > 0,
        _ => false,
    }
}

/// Whether a statement has an `Effect` that is a string.
pub open spec fn has_effect(raw: JsonView) -> bool {
    text_of(raw.field("Effect"@)) is Some
}

/// What a statement with an `Effect` says.
pub open spec fn statement_of(raw: JsonView) -> StatementView {
    StatementView {
        sid: text_of(raw.field("Sid"@)),
        effect: text_of(raw.field("Effect"@))->0,
        actions: listed_texts(raw.field("Action"@)),
        not_actions: listed_texts(raw.field("NotAction"@)),
        resources: listed_texts(raw.field("Resource"@)),
        resource_present: raw.field("Resource"@) is Some,
        not_resources: listed_texts(raw.field("NotResource"@)),
        not_resource_present: raw.field("NotResource"@) is Some,
        principal: raw.field("Principal"@),
        has_condition: constrains(raw.field("Condition"@)),
    }
}

/// The message for a statement without an `Effect`.
pub open spec fn missing_effect(index: nat) -> Seq<char> {
    "statement "@ + decimal(index) + ": missing required \"Effect\" field"@
}

/// Whether `index` is the first of some statements without an `Effect`.
pub open spec fn first_without_effect(raws: Seq<JsonView>, index: int) -> bool {
    &&& 0 <= index < raws.len()
    &&& !has_effect(raws[index])
    &&& forall|i: int| 0 <= i < index ==> has_effect(#[trigger] raws[i])
}

/// What some statements say, or the message for the first without an `Effect`.
pub open spec fn statements_of(raws: Seq<JsonView>) -> Result<Seq<StatementView>, Seq<char>> {
    if forall|i: int| 0 <= i < raws.len() ==> has_effect(#[trigger] raws[i]) {
        Ok(raws.map_values(|raw: JsonView| statement_of(raw)))
    } else {
        Err(missing_effect((choose|index: int| first_without_effect(raws, index)) as nat))
    }
}

/// What a document says, or the message for a document that is no policy. A
/// `Statement` that is one object stands for an array of that object.
pub open spec fn policy_of(root: JsonView) -> Result<PolicyView, Seq<char>> {
    match root.field("Statement"@) {
        None => Err(
            "no top-level \"Statement\" key found — is this an IAM policy document?"@,
        ),
        Some(JsonView::Array(raws)) => policy_with(root, statements_of(raws)),
        Some(JsonView::Object(members)) => policy_with(
            root,
            statements_of(seq![JsonView::Object(members)]),
        ),
        Some(_) => Err("\"Statement\" must be an object or an array of objects"@),
    }
}

/// The policy of a document with the given statements.
pub open spec fn policy_with(
    root: JsonView,
    statements: Result<Seq<StatementView>, Seq<char>>,
) -> Result<PolicyView, Seq<char>> {
    match statements {
        Ok(statements) => Ok(
            PolicyView { version: text_of(root.field("Version"@)), statements },
        ),
        Err(message) => Err(message),
    }
}

/// What a JSON text says, or the message for a text that is no policy.
pub open spec fn policy_of_text(content: Seq<char>) -> Result<PolicyView, Seq<char>> {
    match json_text(content) {
        Ok(root) => policy_of(root),
        Err(message) => Err("not valid JSON: "@ + message),
    }
}

/// The contents of the result of [`parse_policy`].
pub open spec fn policy_result(r: Result<Policy, String>) -> Result<PolicyView, Seq<char>> {
    match r {
        Ok(policy) => Ok(policy@),
        Err(message) => Err(message@),
    }
}

/// The text of an optional value that is a string.
fn optional_string(value: Option<&Json>) -> (r: Option<String>)
    ensures
        optional_text(r) == text_of(optional_view(value)),
{
    match value {
        Some(v) => match v.as_str() {
            Some(t) => Some(t.clone()),
            None => None,
        },
        None => None,
    }
}

/// Accepts a value that is a bare string or an array of strings, the shape that
/// `Action`, `NotAction`, `Resource` and `NotResource` share.
pub fn string_list(value: Option<&Json>) -> (r: Vec<String>)
    ensures
        texts(r@) == listed_texts(optional_view(value)),
{
    let mut out: Vec<String> = Vec::new();
    match value {
        Some(Json::Text(t)) => {
            out.push(t.clone());
            assert(texts(out@) =~= seq![t@]);
        },
        Some(Json::Array(items)) => {
            let ghost all = optional_view(value)->0->Array_0;
            assert(all.take(0) =~= Seq::<JsonView>::empty());
            assert(texts(out@) =~= texts_among(all.take(0)));
            for i in 0..items.len()
                invariant
                    value == Some(&Json::Array(*items)),
                    all == optional_view(value)->0->Array_0,
                    all.len() == items@.len(),
                    texts(out@) == texts_among(all.take(i as int)),
            {
                let ghost before = all.take(i as int);
                let ghost item = all[i as int];
                let ghost old_out = out@;
                assert(item == items@[i as int]@);
                assert(all.take(i + 1) =~= before.push(item));
                proof {
                    texts_among_push(before, item);
                }
                if let Some(t) = items[i].as_str() {
                    out.push(t.clone());
                    assert(texts(out@) =~= texts(old_out).push(t@));
                }
            }
            assert(all.take(all.len() as int) =~= all);
        },
        _ => {
            assert(texts(out@) =~= Seq::<Seq<char>>::empty());
        },
    }
    out
}

/// One more value adds its text, or nothing.
proof fn texts_among_push(items: Seq<JsonView>, item: JsonView)
    ensures
        texts_among(items.push(item)) == if item is Text {
            texts_among(items).push(item->Text_0)
        } else {
            texts_among(items)
        },
{
    reveal(Seq::filter);
    assert(items.push(item).drop_last() =~= items);
    if item is Text {
        assert(texts_among(items.push(item)) =~= texts_among(items).push(item->Text_0));
    }
}

/// Whether a `Condition` value is an object with members.
pub fn condition_is_meaningful(value: Option<&Json>) -> (r: bool)
    ensures
        r == constrains(optional_view(value)),
{
    match value {
        Some(Json::Object(members)) => members.len() > 0,
        _ => false,
    }
}

/// Reads one statement; `None` if it has no `Effect`.
fn parse_statement(raw: &Json) -> (r: Option<Statement>)
    ensures
        match r {
            Some(statement) => has_effect(raw@) && statement@ == statement_of(raw@),
            None => !has_effect(raw@),
        },
{
    let effect = match optional_string(raw.get("Effect")) {
        Some(effect) => effect,
        None => {
            return None;
        },
    };
    let principal = match raw.get("Principal") {
        Some(p) => Some(p.clone()),
        None => None,
    };
    Some(
        Statement {
            sid: optional_string(raw.get("Sid")),
            effect,
            actions: string_list(raw.get("Action")),
            not_actions: string_list(raw.get("NotAction")),
            resources: string_list(raw.get("Resource")),
            resource_present: raw.get("Resource").is_some(),
            not_resources: string_list(raw.get("NotResource")),
            not_resource_present: raw.get("NotResource").is_some(),
            principal,
            has_condition: condition_is_meaningful(raw.get("Condition")),
        },
    )
}

/// The contents of some JSON values.
pub open spec fn views(items: Seq<&Json>) -> Seq<JsonView> {
    items.map_values(|v: &Json| v@)
}

/// Reads statements up to the first without an `Effect`.
fn parse_statements(raws: &Vec<&Json>) -> (r: Result<Vec<Statement>, String>)
    ensures
        match r {
            Ok(statements) => statements_of(views(raws@)) == Ok::<Seq<StatementView>, Seq<char>>(
                statements@.map_values(|s: Statement| s@),
            ),
            Err(message) => statements_of(views(raws@)) == Err::<Seq<StatementView>, Seq<char>>(
                message@,
            ),
        },
{
    let ghost all = views(raws@);
    let mut statements: Vec<Statement> = Vec::new();
    for i in 0..raws.len()
        invariant
            all == views(raws@),
            statements@.len() == i,
            forall|k: int|
                0 <= k < i ==> has_effect(#[trigger] all[k]) && statements@[k]@ == statement_of(
                    all[k],
                ),
    {
        assert(all[i as int] == raws@[i as int]@);
        match parse_statement(raws[i]) {
            Some(statement) => {
                statements.push(statement);
            },
            None => {
                proof {
                    assert(first_without_effect(all, i as int));
                    let index = choose|index: int| first_without_effect(all, index);
                    assert(first_without_effect(all, index));
                    assert(index == i) by {
                        if index < i {
                            assert(has_effect(all[index]));
                        } else if index > i {
                            assert(has_effect(all[i as int]));
                        }
                    }
                }
                let mut message = "statement ".to_owned();
                message.append(decimal_string(i).as_str());
                message.append(": missing required \"Effect\" field");
                return Err(message);
            },
        }
    }
    assert(statements@.map_values(|s: Statement| s@) =~= all.map_values(
        |raw: JsonView| statement_of(raw),
    ));
    Ok(statements)
}

/// Reads a policy from a parsed document.
pub fn policy_from_json(root: &Json) -> (r: Result<Policy, String>)
    ensures
        policy_result(r) == policy_of(root@),
{
    let version = optional_string(root.get("Version"));
    let statement_value = match root.get("Statement") {
        Some(value) => value,
        None => {
            return Err(
                "no top-level \"Statement\" key found — is this an IAM policy document?".to_owned(),
            );
        },
    };
    let mut raws: Vec<&Json> = Vec::new();
    match statement_value {
        Json::Array(items) => {
            for i in 0..items.len()
                invariant
                    raws@.len() == i,
                    forall|k: int| 0 <= k < i ==> raws@[k] == items@[k],
            {
                raws.push(&items[i]);
            }
            assert(views(raws@) =~= statement_value@->Array_0);
        },
        Json::Object(_) => {
            raws.push(statement_value);
            assert(views(raws@) =~= seq![statement_value@]);
        },
        _ => {
            return Err("\"Statement\" must be an object or an array of objects".to_owned());
        },
    }
    match parse_statements(&raws) {
        Ok(statements) => Ok(Policy { version, statements }),
        Err(message) => Err(message),
    }
}

/// Reads a policy from a JSON text.
pub fn parse_policy(content: &str) -> (r: Result<Policy, String>)
    ensures
        policy_result(r) == policy_of_text(content@),
{
    match read_json(content) {
        Ok(root) => policy_from_json(&root),
        Err(message) => {
            let mut text = "not valid JSON: ".to_owned();
            text.append(message.as_str());
            Err(text)
        },
    }
}

} // verus!
