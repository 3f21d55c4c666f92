//! JSON text and numbers, as `serde_json` reads and writes them.
use crate::json::Json;
#[allow(unused_imports)]
use crate::json::{
    items_view, lemma_array_view, lemma_item_is_smaller, lemma_item_view_is_smaller,
    lemma_member_is_smaller, lemma_member_view_is_smaller, lemma_object_view, members_view,
    names_ascend, JsonView,
};
use serde_json::{Number, Value};
use vstd::prelude::*;

verus! {

/// A JSON number; only `serde_json` looks into it.
#[verifier::external_type_specification]
#[verifier::external_body]
pub struct ExNumber(serde_json::Number);

/// A JSON value as `serde_json` has it.
#[verifier::external_type_specification]
#[verifier::external_body]
pub struct ExValue(serde_json::Value);

/// What a `serde_json::Value` holds.
pub uninterp spec fn value_content(value: Value) -> JsonView;

/// What `serde_json::from_str` makes of a JSON text: the value, or what the
/// error says.
pub uninterp spec fn parse_outcome(text: Seq<char>) -> Result<JsonView, Seq<char>>;

/// The compact JSON text that `serde_json` writes for a value.
pub uninterp spec fn json_text(value: JsonView) -> Seq<char>;

/// The number that `serde_json` makes of an integer.
pub uninterp spec fn integer_number(n: i64) -> Number;

/// The outermost layer of a `serde_json::Value`.
pub enum Node {
    Null,
    Bool(bool),
    Num(Number),
    Text(String),
    Array(Vec<Value>),
    Object(Vec<(String, Value)>),
}

impl Node {
    /// What a value with this outermost layer holds.
    pub open spec fn content(self) -> JsonView {
        match self {
            Node::Null => JsonView::Null,
            Node::Bool(b) => JsonView::Bool(b),
            Node::Num(n) => JsonView::Num(n),
            Node::Text(text) => JsonView::Text(text@),
            Node::Array(items) => JsonView::Array(
                items@.map_values(|item: Value| value_content(item)),
            ),
            Node::Object(members) => JsonView::Object(
                members@.map_values(|member: (String, Value)| (member.0@, value_content(member.1))),
            ),
        }
    }

    /// Where the layer is an object, the names of its members ascend.
    pub open spec fn wf(self) -> bool {
        self is Object ==> names_ascend(self.content()->Object_0)
    }
}

/// Takes the outermost layer off a `serde_json::Value`. Without the feature
/// `preserve_order` a `serde_json::Map` is a `BTreeMap`, and its `into_iter`
/// hands out the members in ascending order of their keys.
#[verifier::external_body]
fn take_apart(value: Value) -> (node: Node)
    ensures
        node.content() == value_content(value),
        node.wf(),
{
    match value {
        Value::Null => Node::Null,
        Value::Bool(b) => Node::Bool(b),
        Value::Number(n) => Node::Num(n),
        Value::String(text) => Node::Text(text),
        Value::Array(items) => Node::Array(items),
        Value::Object(members) => Node::Object(members.into_iter().collect()),
    }
}

/// Makes the `serde_json::Value` with an outermost layer. The names of an
/// object's members ascend, so none occurs twice, and a `serde_json::Map` that
/// is collected from them keeps all of them, in that order.
#[verifier::external_body]
fn put_together(node: Node) -> (value: Value)
    requires
        node.wf(),
    ensures
        value_content(value) == node.content(),
{
    match node {
        Node::Null => Value::Null,
        Node::Bool(b) => Value::Bool(b),
        Node::Num(n) => Value::Number(n),
        Node::Text(text) => Value::String(text),
        Node::Array(items) => Value::Array(items),
        Node::Object(members) => Value::Object(members.into_iter().collect()),
    }
}

/// The `serde_json::Value` that holds what `json` holds.
fn value_of_json(json: &Json) -> (value: Value)
    requires
        json@.wf(),
    ensures
        value_content(value) == json@,
    decreases json,
{
    broadcast use {lemma_array_view, lemma_object_view};

    match json {
        Json::Null => put_together(Node::Null),
        Json::Bool(b) => put_together(Node::Bool(*b)),
        Json::Num(n) => put_together(Node::Num(n.clone())),
        Json::Text(text) => put_together(Node::Text(text.clone())),
        Json::Array(items) => {
            let mut copies: Vec<Value> = Vec::new();
            for i in 0..items.len()
                invariant
                    json == Json::Array(*items),
                    json@.wf(),
                    json@ == JsonView::Array(items_view(items@)),
                    copies@.len() == i,
                    forall|j: int|
                        0 <= j < i ==> value_content(#[trigger] copies@[j]) == items@[j]@,
            {
                proof {
                    lemma_item_is_smaller(*json, i as int);
                    assert(json@->Array_0[i as int].wf());
                }
                copies.push(value_of_json(&items[i]));
            }
            let node: Node = Node::Array(copies);
            assert(node.content()->Array_0 =~= items_view(items@));
            put_together(node)
        },
        Json::Object(members) => {
            let mut copies: Vec<(String, Value)> = Vec::new();
            for i in 0..members.len()
                invariant
                    json == Json::Object(*members),
                    json@.wf(),
                    json@ == JsonView::Object(members_view(members@)),
                    copies@.len() == i,
                    forall|j: int|
                        0 <= j < i ==> (#[trigger] copies@[j]).0@ == members@[j].0@
                            && value_content(copies@[j].1) == members@[j].1@,
            {
                proof {
                    lemma_member_is_smaller(*json, i as int);
                    assert(json@->Object_0[i as int].1.wf());
                }
                copies.push((members[i].0.clone(), value_of_json(&members[i].1)));
            }
            let node: Node = Node::Object(copies);
            assert(node.content()->Object_0 =~= members_view(members@));
            put_together(node)
        },
    }
}

/// `serde_json::from_str`, reading a `serde_json::Value`, with the error as the
/// text that it displays. What comes back depends on the text alone.
#[verifier::external_body]
fn read_value(text: &str) -> (outcome: Result<Value, String>)
    ensures
        match outcome {
            Ok(value) => parse_outcome(text@) == Ok::<JsonView, Seq<char>>(value_content(value)),
            Err(error) => parse_outcome(text@) == Err::<JsonView, Seq<char>>(error@),
        },
{
    match serde_json::from_str::<Value>(text) {
        Ok(value) => Ok(value),
        Err(error) => Err(error.to_string()),
    }
}

/// The `Display` form of a `serde_json::Value`: its compact JSON text, in which
/// control characters are escaped, so that it is one line.
#[verifier::external_body]
fn value_text(value: &Value) -> (text: String)
    ensures
        text@ == json_text(value_content(*value)),
        !text@.contains('\n'),
{
    value.to_string()
}

/// `serde_json::Number::from` on an `i64`. The number keeps the integer, so that
/// no other integer gives the same number.
#[verifier::external_body]
fn number_of(n: i64) -> (number: Number)
    ensures
        number == integer_number(n),
        forall|m: i64| #[trigger] integer_number(m) == number ==> m == n,
{
    Number::from(n)
}

impl Json {
    /// What a `serde_json::Value` holds, as a [`Json`].
    pub fn from_value(value: Value) -> (json: Json)
        ensures
            json@ == value_content(value),
            json@.wf(),
        decreases value_content(value),
    {
        broadcast use {lemma_array_view, lemma_object_view};

        let ghost content = value_content(value);
        match take_apart(value) {
            Node::Null => Json::Null,
            Node::Bool(b) => Json::Bool(b),
            Node::Num(n) => Json::Num(n),
            Node::Text(text) => Json::Text(text),
            Node::Array(items) => {
                let ghost all = items@;
                let mut copies: Vec<Json> = Vec::new();
                for item in it: items
                    invariant
                        it.seq() == all,
                        content is Array,
                        content->Array_0 == all.map_values(|item: Value| value_content(item)),
                        copies@.len() == it.index(),
                        forall|j: int|
                            0 <= j < copies@.len() ==> (#[trigger] copies@[j])@ == content->Array_0[j]
                                && copies@[j]@.wf(),
                        content == value_content(value),
                {
                    proof {
                        lemma_item_view_is_smaller(content, it.index());
                    }
                    copies.push(Json::from_value(item));
                }
                assert(items_view(copies@) =~= content->Array_0);
                Json::Array(copies)
            },
            Node::Object(members) => {
                let ghost all = members@;
                let mut copies: Vec<(String, Json)> = Vec::new();
                for member in it: members
                    invariant
                        it.seq() == all,
                        content is Object,
                        content->Object_0 == all.map_values(
                            |member: (String, Value)| (member.0@, value_content(member.1)),
                        ),
                        copies@.len() == it.index(),
                        forall|j: int|
                            0 <= j < copies@.len() ==> (#[trigger] copies@[j]).0@
                                == content->Object_0[j].0 && copies@[j].1@ == content->Object_0[j].1
                                && copies@[j].1@.wf(),
                        content == value_content(value),
                {
                    proof {
                        lemma_member_view_is_smaller(content, it.index());
                    }
                    copies.push((member.0, Json::from_value(member.1)));
                }
                assert(members_view(copies@) =~= content->Object_0);
                Json::Object(copies)
            },
        }
    }

    /// Reads a JSON text. The error says what is wrong with it.
    pub fn parse(text: &str) -> (outcome: Result<Json, String>)
        ensures
            match outcome {
                Ok(json) => json@.wf() && parse_outcome(text@) == Ok::<JsonView, Seq<char>>(json@),
                Err(error) => parse_outcome(text@) == Err::<JsonView, Seq<char>>(error@),
            },
    {
        match read_value(text) {
            Ok(value) => Ok(Json::from_value(value)),
            Err(error) => Err(error),
        }
    }

    /// The compact JSON text of the value.
    pub fn to_text(&self) -> (text: String)
        requires
            self@.wf(),
        ensures
            text@ == json_text(self@),
            !text@.contains('\n'),
    {
        value_text(&value_of_json(self))
    }

    /// The JSON number `n`, which is that of no other integer.
    pub fn integer(n: i64) -> (json: Json)
        ensures
            json@ == JsonView::Num(integer_number(n)),
            forall|m: i64| #[trigger] integer_number(m) == integer_number(n) ==> m == n,
    {
        Json::Num(number_of(n))
    }
}

} // verus!
