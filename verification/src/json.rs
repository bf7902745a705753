//! JSON values, and reading them from text.
use vstd::prelude::*;

verus! {

/// A JSON value. A number is held as its decimal text.
#[derive(Debug)]
pub enum Json {
    Null,
    Bool(bool),
    Number(String),
    Text(String),
    Array(Vec<Json>),
    Object(Vec<Member>),
}

/// One named value of a JSON object.
#[derive(Debug)]
pub struct Member {
    pub name: String,
    pub value: Json,
}

/// The mathematical contents of a [`Json`] value.
pub enum JsonView {
    Null,
    Bool(bool),
    Number(Seq<char>),
    Text(Seq<char>),
    Array(Seq<JsonView>),
    Object(Seq<MemberView>),
}

/// The mathematical contents of a [`Member`].
pub struct MemberView {
    pub name: Seq<char>,
    pub value: JsonView,
}

impl View for Json {
    type V = JsonView;

    open spec fn view(&self) -> JsonView
        decreases self,
    {
        match self {
            Json::Null => JsonView::Null,
            Json::Bool(b) => JsonView::Bool(*b),
            Json::Number(t) => JsonView::Number(t@),
            Json::Text(t) => JsonView::Text(t@),
            Json::Array(items) => JsonView::Array(
                Seq::new(
                    items@.len(),
                    |i: int|
                        if 0 <= i < items@.len() {
                            items@[i].view()
                        } else {
                            JsonView::Null
                        },
                ),
            ),
            Json::Object(members) => JsonView::Object(
                Seq::new(
                    members@.len(),
                    |i: int|
                        if 0 <= i < members@.len() {
                            MemberView {
                                name: members@[i].name@,
                                value: members@[i].value.view(),
                            }
                        } else {
                            MemberView { name: Seq::empty(), value: JsonView::Null }
                        },
                ),
            ),
        }
    }
}

/// The value of the first member with the given name.
pub open spec fn lookup(members: Seq<MemberView>, name: Seq<char>) -> Option<JsonView>
    decreases members.len(),
{
    if members.len() == 0 {
        None
    } else if members[0].name == name {
        Some(members[0].value)
    } else {
        lookup(members.drop_first(), name)
    }
}

/// Whether no two members have the same name.
pub open spec fn distinct_names(members: Seq<MemberView>) -> bool {
    forall|i: int, j: int|
        0 <= i < j < members.len() ==> (#[trigger] members[i]).name != (
        #[trigger] members[j]).name
}

impl JsonView {
    /// What an object holds under a name; nothing for a value of another kind.
    pub open spec fn field(self, name: Seq<char>) -> Option<JsonView> {
        match self {
            JsonView::Object(members) => lookup(members, name),
            _ => None,
        }
    }

    /// Whether the members of each object in the value have distinct names.
    pub open spec fn well_formed(self) -> bool
        decreases self,
    {
        match self {
            JsonView::Array(items) => forall|i: int|
                0 <= i < items.len() ==> (#[trigger] items[i]).well_formed(),
            JsonView::Object(members) => {
                &&& distinct_names(members)
                &&& forall|i: int|
                    0 <= i < members.len() ==> (#[trigger] members[i]).value.well_formed()
            },
            _ => true,
        }
    }
}

/// The text of a value that is a string.
pub open spec fn text_of(value: Option<JsonView>) -> Option<Seq<char>> {
    match value {
        Some(JsonView::Text(t)) => Some(t),
        _ => None,
    }
}

impl Json {
    /// The value that an object holds under `name`.
    pub fn get(&self, name: &str) -> (r: Option<&Json>)
        ensures
            optional_view(r) == self@.field(name@),
    {
        match self {
            Json::Object(members) => {
                let wanted = name.to_owned();
                let ghost all = self@->Object_0;
                assert(all.skip(0) =~= all);
                for i in 0..members.len()
                    invariant
                        wanted@ == name@,
                        self == Json::Object(*members),
                        all == self@->Object_0,
                        all.len() == members@.len(),
                        lookup(all, name@) == lookup(all.skip(i as int), name@),
                {
                    let ghost rest = all.skip(i as int);
                    assert(rest[0] == all[i as int]);
                    assert(all[i as int].name == members@[i as int].name@);
                    assert(all[i as int].value == members@[i as int].value@);
                    assert(rest.drop_first() =~= all.skip(i + 1));
                    if members[i].name == wanted {
                        return Some(&members[i].value);
                    }
                }
                None
            },
            _ => None,
        }
    }

    /// The text of a string.
    pub fn as_str(&self) -> (r: Option<&String>)
        ensures
            match r {
                Some(t) => self@ == JsonView::Text(t@),
                None => !(self@ is Text),
            },
    {
        match self {
            Json::Text(t) => Some(t),
            _ => None,
        }
    }
}

/// The contents of an optional JSON value.
pub open spec fn optional_view(value: Option<&Json>) -> Option<JsonView> {
    match value {
        Some(v) => Some(v@),
        None => None,
    }
}

impl Clone for Json {
    fn clone(&self) -> (r: Self)
        ensures
            r@ == self@,
        decreases self@,
    {
        match self {
            Json::Null => Json::Null,
            Json::Bool(b) => Json::Bool(*b),
            Json::Number(t) => Json::Number(t.clone()),
            Json::Text(t) => Json::Text(t.clone()),
            Json::Array(items) => {
                let mut out: Vec<Json> = Vec::new();
                for i in 0..items.len()
                    invariant
                        self == Json::Array(*items),
                        out@.len() == i,
                        forall|k: int| 0 <= k < i ==> (#[trigger] out@[k])@ == items@[k]@,
                {
                    assert(self@->Array_0[i as int] == items@[i as int]@);
                    out.push(items[i].clone());
                }
                let r = Json::Array(out);
                assert(r@->Array_0 =~= self@->Array_0);
                r
            },
            Json::Object(members) => {
                let mut out: Vec<Member> = Vec::new();
                for i in 0..members.len()
                    invariant
                        self == Json::Object(*members),
                        out@.len() == i,
                        forall|k: int|
                            0 <= k < i ==> {
                                &&& (#[trigger] out@[k]).name@ == members@[k].name@
                                &&& out@[k].value@ == members@[k].value@
                            },
                {
                    assert(self@->Object_0[i as int].value == members@[i as int].value@);
                    out.push(
                        Member { name: members[i].name.clone(), value: members[i].value.clone() },
                    );
                }
                let r = Json::Object(out);
                assert(r@->Object_0 =~= self@->Object_0);
                r
            },
        }
    }
}

/// `serde_json::Value`, which the parser returns.
#[verifier::external_type_specification]
#[verifier::external_body]
pub struct ExValue(serde_json::Value);

/// `serde_json::Error`, which the parser returns for a text that it rejects.
#[verifier::external_type_specification]
#[verifier::external_body]
pub struct ExError(serde_json::Error);

/// What a `serde_json::Value` holds: its kind, its text, items or members, the
/// members in the order in which its map is walked (ascending by name), and a
/// number as the text that `serde_json::Number` displays.
pub uninterp spec fn contents(v: serde_json::Value) -> JsonView;

/// The message that a `serde_json::Error` displays.
pub uninterp spec fn error_text(e: serde_json::Error) -> Seq<char>;

/// What `serde_json::from_str` makes of a text: the value that the text stands
/// for, or the message of the error.
pub uninterp spec fn json_text(s: Seq<char>) -> Result<JsonView, Seq<char>>;

/// The contents of a parser result.
pub open spec fn outcome(r: Result<serde_json::Value, serde_json::Error>) -> Result<
    JsonView,
    Seq<char>,
> {
    match r {
        Ok(v) => Ok(contents(v)),
        Err(e) => Err(error_text(e)),
    }
}

/// `serde_json::from_str` at the type `serde_json::Value`. Whether it succeeds,
/// the value and the error's message are functions of the text alone; the
/// grammar itself is not stated.
#[verifier::external_body]
fn from_str(s: &str) -> (r: Result<serde_json::Value, serde_json::Error>)
    ensures
        outcome(r) == json_text(s@),
{
    serde_json::from_str(s)
}

/// The `Display` text of a `serde_json::Error`, a function of the error alone.
#[verifier::external_body]
fn describe(e: &serde_json::Error) -> (r: String)
    ensures
        r@ == error_text(*e),
{
    e.to_string()
}

/// One level of a `serde_json::Value`.
enum Node<'a> {
    Null,
    Bool(bool),
    Number(String),
    Text(String),
    Array(&'a Vec<serde_json::Value>),
    Object(Vec<(&'a String, &'a serde_json::Value)>),
}

/// What a value holds that has the given top level.
spec fn node_contents(n: Node<'_>) -> JsonView {
    match n {
        Node::Null => JsonView::Null,
        Node::Bool(b) => JsonView::Bool(b),
        Node::Number(t) => JsonView::Number(t@),
        Node::Text(t) => JsonView::Text(t@),
        Node::Array(items) => JsonView::Array(
            items@.map_values(|v: serde_json::Value| contents(v)),
        ),
        Node::Object(members) => JsonView::Object(
            members@.map_values(
                |m: (&String, &serde_json::Value)|
                    MemberView { name: m.0@, value: contents(*m.1) },
            ),
        ),
    }
}

/// Takes a `serde_json::Value` apart by its variants. The contents of a value
/// are those of its parts; `serde_json::Map::iter` yields each member of an
/// object once, and no two with the same name.
#[verifier::external_body]
fn node(v: &serde_json::Value) -> (n: Node<'_>)
    ensures
        node_contents(n) == contents(*v),
        n matches Node::Object(members) ==> forall|i: int, j: int|
            0 <= i < j < members@.len() ==> (#[trigger] members@[i]).0@ != (
            #[trigger] members@[j]).0@,
{
    match v {
        serde_json::Value::Null => Node::Null,
        serde_json::Value::Bool(b) => Node::Bool(*b),
        serde_json::Value::Number(n) => Node::Number(n.to_string()),
        serde_json::Value::String(s) => Node::Text(s.clone()),
        serde_json::Value::Array(items) => Node::Array(items),
        serde_json::Value::Object(map) => Node::Object(map.iter().collect()),
    }
}

/// The [`Json`] value with the contents of a parsed value.
fn from_value(v: &serde_json::Value) -> (j: Json)
    ensures
        j@ == contents(*v),
        j@.well_formed(),
    decreases contents(*v),
{
    match node(v) {
        Node::Null => Json::Null,
        Node::Bool(b) => Json::Bool(b),
        Node::Number(t) => Json::Number(t),
        Node::Text(t) => Json::Text(t),
        Node::Array(items) => {
            let mut out: Vec<Json> = Vec::new();
            for i in 0..items.len()
                invariant
                    contents(*v) == node_contents(Node::Array(items)),
                    out@.len() == i,
                    forall|k: int|
                        0 <= k < i ==> {
                            &&& (#[trigger] out@[k])@ == contents(items@[k])
                            &&& out@[k]@.well_formed()
                        },
            {
                assert(contents(*v)->Array_0[i as int] == contents(items@[i as int]));
                out.push(from_value(&items[i]));
            }
            let j = Json::Array(out);
            assert(j@->Array_0 =~= contents(*v)->Array_0);
            j
        },
        Node::Object(members) => {
            let mut out: Vec<Member> = Vec::new();
            for i in 0..members.len()
                invariant
                    contents(*v) == node_contents(Node::Object(members)),
                    out@.len() == i,
                    forall|k: int|
                        0 <= k < i ==> {
                            &&& (#[trigger] out@[k]).name@ == members@[k].0@
                            &&& out@[k].value@ == contents(*members@[k].1)
                            &&& out@[k].value@.well_formed()
                        },
            {
                assert(contents(*v)->Object_0[i as int].value == contents(*members@[i as int].1));
                out.push(Member { name: members[i].0.clone(), value: from_value(members[i].1) });
            }
            let j = Json::Object(out);
            assert(j@->Object_0 =~= contents(*v)->Object_0);
            j
        },
    }
}

/// Reads a JSON text, or returns the parser's message.
pub fn read_json(s: &str) -> (r: Result<Json, String>)
    ensures
        match r {
            Ok(j) => json_text(s@) == Ok::<JsonView, Seq<char>>(j@) && j@.well_formed(),
            Err(m) => json_text(s@) == Err::<JsonView, Seq<char>>(m@),
        },
{
    match from_str(s) {
        Ok(v) => Ok(from_value(&v)),
        Err(e) => Err(describe(&e)),
    }
}

/// Where names are distinct, each member is found under its name, so the order
/// of the members does not matter.
pub proof fn lookup_finds_each_member(members: Seq<MemberView>, i: int)
    requires
        distinct_names(members),
        0 <= i < members.len(),
    ensures
        lookup(members, members[i].name) == Some(members[i].value),
    decreases members.len(),
{
    if i > 0 {
        let rest = members.drop_first();
        assert(members[0].name != members[i].name);
        assert forall|a: int, b: int| 0 <= a < b < rest.len() implies (#[trigger] rest[a]).name != (
        #[trigger] rest[b]).name by {
            assert(rest[a] == members[a + 1] && rest[b] == members[b + 1]);
        }
        lookup_finds_each_member(rest, i - 1);
    }
}

/// Nothing is found under a name that no member has.
pub proof fn lookup_of_absent_name(members: Seq<MemberView>, name: Seq<char>)
    requires
        forall|i: int| 0 <= i < members.len() ==> (#[trigger] members[i]).name != name,
    ensures
        lookup(members, name) is None,
    decreases members.len(),
{
    if members.len() > 0 {
        let rest = members.drop_first();
        assert forall|i: int| 0 <= i < rest.len() implies (#[trigger] rest[i]).name != name by {
            assert(rest[i] == members[i + 1]);
        }
        lookup_of_absent_name(rest, name);
    }
}

} // verus!
