//! JSON values.
use crate::text::same_text;
use serde_json::Number;
use vstd::prelude::*;

verus! {

/// A JSON value as mathematics. An object is the sequence of its members.
#[verifier::ext_equal]
pub enum JsonView {
    Null,
    Bool(bool),
    Num(Number),
    Text(Seq<char>),
    Array(Seq<JsonView>),
    Object(Seq<(Seq<char>, JsonView)>),
}

/// `a` comes before `b` in the order of their characters' code points.
pub open spec fn text_before(a: Seq<char>, b: Seq<char>) -> bool
    decreases a.len(),
{
    if b.len() == 0 {
        false
    } else if a.len() == 0 {
        true
    } else if a[0] != b[0] {
        a[0] < b[0]
    } else {
        text_before(a.drop_first(), b.drop_first())
    }
}

/// Texts whose first characters ascend ascend.
pub proof fn lemma_before_by_first(a: Seq<char>, b: Seq<char>)
    requires
        a.len() > 0,
        b.len() > 0,
        a[0] < b[0],
    ensures
        text_before(a, b),
{
}

/// Texts that share the first character and whose second characters ascend
/// ascend.
pub proof fn lemma_before_by_second(a: Seq<char>, b: Seq<char>)
    requires
        a.len() > 1,
        b.len() > 1,
        a[0] == b[0],
        a[1] < b[1],
    ensures
        text_before(a, b),
{
    lemma_before_by_first(a.drop_first(), b.drop_first());
}

/// The value of the first member called `key`.
pub open spec fn member_of(members: Seq<(Seq<char>, JsonView)>, key: Seq<char>) -> Option<JsonView>
    decreases members.len(),
{
    if members.len() == 0 {
        None
    } else if members[0].0 == key {
        Some(members[0].1)
    } else {
        member_of(members.drop_first(), key)
    }
}

/// The names of the members ascend.
pub open spec fn names_ascend(members: Seq<(Seq<char>, JsonView)>) -> bool {
    forall|i: int, j: int|
        0 <= i < j < members.len() ==> text_before(
            (#[trigger] members[i]).0,
            (#[trigger] members[j]).0,
        )
}

/// No text comes before itself.
pub proof fn lemma_before_differs(a: Seq<char>, b: Seq<char>)
    requires
        text_before(a, b),
    ensures
        a != b,
    decreases a.len(),
{
    if a.len() > 0 && a[0] == b[0] {
        lemma_before_differs(a.drop_first(), b.drop_first());
        assert(a == b ==> a.drop_first() == b.drop_first());
    }
}

/// A member that is found stands in the object.
pub proof fn lemma_member_has_index(members: Seq<(Seq<char>, JsonView)>, key: Seq<char>) -> (i: int)
    requires
        member_of(members, key) is Some,
    ensures
        0 <= i < members.len(),
        members[i].0 == key,
        members[i].1 == member_of(members, key)->0,
    decreases members.len(),
{
    if members[0].0 == key {
        0
    } else {
        let i: int = lemma_member_has_index(members.drop_first(), key);
        i + 1
    }
}

/// Each member of an object whose names ascend is found under its name.
pub proof fn lemma_member_is_found(members: Seq<(Seq<char>, JsonView)>, i: int)
    requires
        names_ascend(members),
        0 <= i < members.len(),
    ensures
        member_of(members, members[i].0) == Some(members[i].1),
    decreases members.len(),
{
    if i > 0 {
        lemma_before_differs(members[0].0, members[i].0);
        let rest = members.drop_first();
        assert forall|j: int, k: int| 0 <= j < k < rest.len() implies text_before(
            (#[trigger] rest[j]).0,
            (#[trigger] rest[k]).0,
        ) by {
            assert(rest[j] == members[j + 1]);
            assert(rest[k] == members[k + 1]);
        }
        lemma_member_is_found(rest, i - 1);
    }
}

impl JsonView {
    /// The member names of every object in the value ascend, so that none
    /// occurs twice.
    pub open spec fn wf(self) -> bool
        decreases self,
    {
        match self {
            JsonView::Array(items) => forall|i: int|
                0 <= i < items.len() ==> (#[trigger] items[i]).wf(),
            JsonView::Object(members) => {
                &&& names_ascend(members)
                &&& forall|i: int| 0 <= i < members.len() ==> (#[trigger] members[i]).1.wf()
            },
            _ => true,
        }
    }

    /// The member called `key`, where the value is an object that has one.
    pub open spec fn get(self, key: Seq<char>) -> Option<JsonView> {
        match self {
            JsonView::Object(members) => member_of(members, key),
            _ => None,
        }
    }

    /// The text, where the value is a string.
    pub open spec fn as_text(self) -> Option<Seq<char>> {
        match self {
            JsonView::Text(text) => Some(text),
            _ => None,
        }
    }

    /// The truth value, where the value is one.
    pub open spec fn as_bool(self) -> Option<bool> {
        match self {
            JsonView::Bool(b) => Some(b),
            _ => None,
        }
    }

    /// The value is neither an object nor an array.
    pub open spec fn is_scalar(self) -> bool {
        !(self is Object) && !(self is Array)
    }
}

/// A value without parts is well-formed.
pub proof fn lemma_scalar_wf(value: JsonView)
    requires
        value.is_scalar(),
    ensures
        value.wf(),
{
}

/// An array of a well-formed item is well-formed.
pub proof fn lemma_array1_wf(item: JsonView)
    requires
        item.wf(),
    ensures
        JsonView::Array(seq![item]).wf(),
{
}

/// An object with one well-formed member is well-formed.
pub proof fn lemma_object1_wf(name: Seq<char>, value: JsonView)
    requires
        value.wf(),
    ensures
        JsonView::Object(seq![(name, value)]).wf(),
{
    assert(names_ascend(seq![(name, value)]));
}

/// An object with two well-formed members in ascending order is well-formed.
pub proof fn lemma_object2_wf(
    name1: Seq<char>,
    value1: JsonView,
    name2: Seq<char>,
    value2: JsonView,
)
    requires
        text_before(name1, name2),
        value1.wf(),
        value2.wf(),
    ensures
        JsonView::Object(seq![(name1, value1), (name2, value2)]).wf(),
{
    assert(names_ascend(seq![(name1, value1), (name2, value2)]));
}

/// An object with three well-formed members in ascending order is well-formed.
pub proof fn lemma_object3_wf(
    name1: Seq<char>,
    value1: JsonView,
    name2: Seq<char>,
    value2: JsonView,
    name3: Seq<char>,
    value3: JsonView,
)
    requires
        text_before(name1, name2),
        text_before(name2, name3),
        text_before(name1, name3),
        value1.wf(),
        value2.wf(),
        value3.wf(),
    ensures
        JsonView::Object(seq![(name1, value1), (name2, value2), (name3, value3)]).wf(),
{
    assert(names_ascend(seq![(name1, value1), (name2, value2), (name3, value3)]));
}

/// A JSON value. The members of an object stand in ascending order of their
/// names.
#[derive(Debug, PartialEq)]
pub enum Json {
    Null,
    Bool(bool),
    Num(Number),
    Text(String),
    Array(Vec<Json>),
    Object(Vec<(String, Json)>),
}

impl Json {
    pub open spec fn model(self) -> JsonView
        decreases self,
    {
        match self {
            Json::Null => JsonView::Null,
            Json::Bool(b) => JsonView::Bool(b),
            Json::Num(n) => JsonView::Num(n),
            Json::Text(text) => JsonView::Text(text@),
            Json::Array(items) => JsonView::Array(
                Seq::new(
                    items@.len(),
                    |i: int|
                        if 0 <= i < items@.len() {
                            items@[i].model()
                        } else {
                            JsonView::Null
                        },
                ),
            ),
            Json::Object(members) => JsonView::Object(
                Seq::new(
                    members@.len(),
                    |i: int|
                        if 0 <= i < members@.len() {
                            (members@[i].0@, members@[i].1.model())
                        } else {
                            (Seq::empty(), JsonView::Null)
                        },
                ),
            ),
        }
    }
}

impl View for Json {
    type V = JsonView;

    open spec fn view(&self) -> JsonView {
        self.model()
    }
}

/// The model of each item.
pub open spec fn items_view(items: Seq<Json>) -> Seq<JsonView> {
    items.map_values(|item: Json| item@)
}

/// The name and the model of each member.
pub open spec fn members_view(members: Seq<(String, Json)>) -> Seq<(Seq<char>, JsonView)> {
    members.map_values(|member: (String, Json)| (member.0@, member.1@))
}

/// The model of a value that may be there.
pub open spec fn shown(value: Option<&Json>) -> Option<JsonView> {
    match value {
        Some(json) => Some(json@),
        None => None,
    }
}

/// The characters of a text that may be there.
pub open spec fn spelled(text: Option<&str>) -> Option<Seq<char>> {
    match text {
        Some(s) => Some(s@),
        None => None,
    }
}

pub broadcast proof fn lemma_array_view(items: Vec<Json>)
    ensures
        #[trigger] Json::Array(items).model() == JsonView::Array(items_view(items@)),
{
    assert(Json::Array(items).model()->Array_0 =~= items_view(items@));
}

pub broadcast proof fn lemma_object_view(members: Vec<(String, Json)>)
    ensures
        #[trigger] Json::Object(members).model() == JsonView::Object(members_view(members@)),
{
    assert(Json::Object(members).model()->Object_0 =~= members_view(members@));
}

/// An array is larger than its items.
pub proof fn lemma_item_is_smaller(json: Json, i: int)
    requires
        json is Array,
        0 <= i < json->Array_0@.len(),
    ensures
        decreases_to!(json => json->Array_0@[i]),
{
    assert(decreases_to!(json => json->Array_0));
    assert(decreases_to!(json->Array_0 => json->Array_0@));
    assert(decreases_to!(json->Array_0@ => json->Array_0@[i]));
}

/// An object is larger than the values of its members.
pub proof fn lemma_member_is_smaller(json: Json, i: int)
    requires
        json is Object,
        0 <= i < json->Object_0@.len(),
    ensures
        decreases_to!(json => json->Object_0@[i].1),
{
    assert(decreases_to!(json => json->Object_0));
    assert(decreases_to!(json->Object_0 => json->Object_0@));
    assert(decreases_to!(json->Object_0@ => json->Object_0@[i]));
    assert(decreases_to!(json->Object_0@[i] => json->Object_0@[i].1));
}

/// The model of an array is larger than those of its items.
pub proof fn lemma_item_view_is_smaller(json: JsonView, i: int)
    requires
        json is Array,
        0 <= i < json->Array_0.len(),
    ensures
        decreases_to!(json => json->Array_0[i]),
{
    assert(decreases_to!(json => json->Array_0));
    assert(decreases_to!(json->Array_0 => json->Array_0[i]));
}

/// The model of an object is larger than those of its members' values.
pub proof fn lemma_member_view_is_smaller(json: JsonView, i: int)
    requires
        json is Object,
        0 <= i < json->Object_0.len(),
    ensures
        decreases_to!(json => json->Object_0[i].1),
{
    assert(decreases_to!(json => json->Object_0));
    assert(decreases_to!(json->Object_0 => json->Object_0[i]));
    assert(decreases_to!(json->Object_0[i] => json->Object_0[i].1));
}

/// `serde_json::Number` clones to the same number.
pub assume_specification[ <serde_json::Number as Clone>::clone ](
    number: &serde_json::Number,
) -> (copy: serde_json::Number)
    ensures
        copy == *number,
;

impl Clone for Json {
    /// A value with the same model.
    fn clone(&self) -> (copy: Self)
        ensures
            copy@ == self@,
        decreases self,
    {
        broadcast use {lemma_array_view, lemma_object_view};

        match self {
            Json::Null => Json::Null,
            Json::Bool(b) => Json::Bool(*b),
            Json::Num(n) => Json::Num(n.clone()),
            Json::Text(text) => Json::Text(text.clone()),
            Json::Array(items) => {
                let mut copies: Vec<Json> = Vec::new();
                for i in 0..items.len()
                    invariant
                        self == Json::Array(*items),
                        copies@.len() == i,
                        forall|j: int| 0 <= j < i ==> (#[trigger] copies@[j])@ == items@[j]@,
                {
                    proof {
                        lemma_item_is_smaller(*self, i as int);
                    }
                    copies.push(items[i].clone());
                }
                assert(items_view(copies@) =~= items_view(items@));
                Json::Array(copies)
            },
            Json::Object(members) => {
                let mut copies: Vec<(String, Json)> = Vec::new();
                for i in 0..members.len()
                    invariant
                        self == Json::Object(*members),
                        copies@.len() == i,
                        forall|j: int|
                            0 <= j < i ==> (#[trigger] copies@[j]).0@ == members@[j].0@
                                && copies@[j].1@ == members@[j].1@,
                {
                    proof {
                        lemma_member_is_smaller(*self, i as int);
                    }
                    copies.push((members[i].0.clone(), members[i].1.clone()));
                }
                assert(members_view(copies@) =~= members_view(members@));
                Json::Object(copies)
            },
        }
    }
}

impl Json {
    /// The member called `key`, where the value is an object that has one.
    pub fn get(&self, key: &str) -> (member: Option<&Json>)
        ensures
            shown(member) == self@.get(key@),
    {
        broadcast use lemma_object_view;

        match self {
            Json::Object(members) => {
                let ghost all = members_view(members@);
                assert(all.skip(0) =~= all);
                for i in 0..members.len()
                    invariant
                        all == members_view(members@),
                        self@ == JsonView::Object(all),
                        member_of(all, key@) == member_of(all.skip(i as int), key@),
                {
                    assert(all.skip(i as int).drop_first() =~= all.skip(i + 1));
                    if same_text(&members[i].0, key) {
                        return Some(&members[i].1);
                    }
                }
                None
            },
            _ => None,
        }
    }

    /// The text, where the value is a string.
    pub fn as_str(&self) -> (text: Option<&str>)
        ensures
            spelled(text) == self@.as_text(),
    {
        match self {
            Json::Text(text) => Some(text.as_str()),
            _ => None,
        }
    }

    /// The truth value, where the value is one.
    pub fn as_bool(&self) -> (truth: Option<bool>)
        ensures
            truth == self@.as_bool(),
    {
        match self {
            Json::Bool(b) => Some(*b),
            _ => None,
        }
    }
}

impl Json {
    /// The JSON string `text`.
    pub fn text(text: &str) -> (json: Json)
        ensures
            json@ == JsonView::Text(text@),
    {
        Json::Text(text.to_owned())
    }
}

impl Json {
    /// The object without members.
    pub fn empty_object() -> (json: Json)
        ensures
            json@ == JsonView::Object(Seq::empty()),
    {
        broadcast use lemma_object_view;

        let members: Vec<(String, Json)> = Vec::new();
        assert(members_view(members@) =~= Seq::empty());
        Json::Object(members)
    }

    /// The object with one member.
    pub fn object1(name: &str, value: Json) -> (json: Json)
        ensures
            json@ == JsonView::Object(seq![(name@, value@)]),
    {
        broadcast use lemma_object_view;

        let ghost view = seq![(name@, value@)];
        let members: Vec<(String, Json)> = vec![(name.to_owned(), value)];
        assert(members_view(members@) =~= view);
        Json::Object(members)
    }

    /// The object with two members.
    pub fn object2(name1: &str, value1: Json, name2: &str, value2: Json) -> (json: Json)
        ensures
            json@ == JsonView::Object(seq![(name1@, value1@), (name2@, value2@)]),
    {
        broadcast use lemma_object_view;

        let ghost view = seq![(name1@, value1@), (name2@, value2@)];
        let members: Vec<(String, Json)> = vec![
            (name1.to_owned(), value1),
            (name2.to_owned(), value2),
        ];
        assert(members_view(members@) =~= view);
        Json::Object(members)
    }

    /// The object with three members.
    pub fn object3(
        name1: &str,
        value1: Json,
        name2: &str,
        value2: Json,
        name3: &str,
        value3: Json,
    ) -> (json: Json)
        ensures
            json@ == JsonView::Object(
                seq![(name1@, value1@), (name2@, value2@), (name3@, value3@)],
            ),
    {
        broadcast use lemma_object_view;

        let ghost view = seq![(name1@, value1@), (name2@, value2@), (name3@, value3@)];
        let members: Vec<(String, Json)> = vec![
            (name1.to_owned(), value1),
            (name2.to_owned(), value2),
            (name3.to_owned(), value3),
        ];
        assert(members_view(members@) =~= view);
        Json::Object(members)
    }

    /// The array with one item.
    pub fn array1(item: Json) -> (json: Json)
        ensures
            json@ == JsonView::Array(seq![item@]),
    {
        broadcast use lemma_array_view;

        let ghost view = seq![item@];
        let items: Vec<Json> = vec![item];
        assert(items_view(items@) =~= view);
        Json::Array(items)
    }
}

/// Whether `value` is neither an object nor an array.
pub fn is_scalar(value: &Json) -> (scalar: bool)
    ensures
        scalar == value@.is_scalar(),
{
    match value {
        Json::Object(_) => false,
        Json::Array(_) => false,
        _ => true,
    }
}

} // verus!
