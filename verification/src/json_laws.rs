//! What holds of JSON values.
#![allow(unused_imports)]
use crate::codec::{json_text, parse_outcome, value_content};
use crate::json::{
    is_scalar, lemma_member_has_index, lemma_member_is_found, lemma_object_view, member_of,
    members_view, text_before, Json, JsonView,
};
use vstd::prelude::*;

verus! {

/// Only objects have members, and a name gives a member exactly if the object
/// has one of that name. In a well-formed object each member is found under its
/// name.
pub proof fn law_members_are_found_by_name(json: Json, key: &str, member: Option<&Json>, i: int)
    requires
        call_ensures(Json::get, (&json, key), member),
    ensures
        !(json is Object) ==> member is None,
        json is Object ==> (member is Some <==> exists|j: int|
            0 <= j < json->Object_0@.len() && #[trigger] json->Object_0@[j].0@ == key@),
        json is Object && member is Some ==> exists|j: int|
            0 <= j < json->Object_0@.len() && #[trigger] json->Object_0@[j].0@ == key@
                && json->Object_0@[j].1@ == member->0@,
        json@.wf() && json is Object && 0 <= i < json->Object_0@.len() && json->Object_0@[i].0@
            == key@ ==> member is Some && member->0@ == json->Object_0@[i].1@,
{
    broadcast use lemma_object_view;

    if json is Object {
        let members = json->Object_0@;
        let all = members_view(members);
        assert(json@ == JsonView::Object(all));
        assert(member is Some <==> member_of(all, key@) is Some);
        if member is Some {
            let at = lemma_member_has_index(all, key@);
            assert(all[at] == (members[at].0@, members[at].1@));
        }
        if exists|j: int| 0 <= j < members.len() && #[trigger] members[j].0@ == key@ {
            let j = choose|j: int| 0 <= j < members.len() && #[trigger] members[j].0@ == key@;
            assert(all[j].0 == key@);
            lemma_present_is_found(all, j);
        }
        if json@.wf() && 0 <= i < members.len() && members[i].0@ == key@ {
            assert(all[i] == (members[i].0@, members[i].1@));
            lemma_member_is_found(all, i);
        }
    }
}

proof fn lemma_present_is_found(members: Seq<(Seq<char>, JsonView)>, i: int)
    requires
        0 <= i < members.len(),
    ensures
        member_of(members, members[i].0) is Some,
    decreases members.len(),
{
    if members[0].0 != members[i].0 {
        assert(members.drop_first()[i - 1] == members[i]);
        lemma_present_is_found(members.drop_first(), i - 1);
    }
}

/// A string gives its text, a truth value gives itself, and a value is scalar
/// exactly if it is no object and no array.
pub proof fn law_kinds_of_values(
    json: Json,
    text: Option<&str>,
    truth: Option<bool>,
    scalar: bool,
)
    requires
        call_ensures(Json::as_str, (&json,), text),
        call_ensures(Json::as_bool, (&json,), truth),
        call_ensures(is_scalar, (&json,), scalar),
    ensures
        text is Some <==> json is Text,
        json is Text ==> text->0@ == json->Text_0@,
        truth is Some <==> json is Bool,
        json is Bool ==> truth->0 == json->Bool_0,
        scalar <==> !(json is Object || json is Array),
{
    assert(json is Text ==> json@ is Text);
    assert(json is Bool ==> json@ is Bool);
}

/// Every JSON text is read, of whatever length, to the value that it stands for,
/// and every value is written as its whole text. A value from `serde_json` stays
/// what it is, and different integers stay different.
pub proof fn law_texts_and_values(
    text: &str,
    parsed: Result<Json, String>,
    json: Json,
    written: String,
    value: serde_json::Value,
    taken: Json,
    m: i64,
    n: i64,
    first: Json,
    second: Json,
)
    requires
        call_ensures(Json::parse, (text,), parsed),
        call_ensures(Json::to_text, (&json,), written),
        call_ensures(Json::from_value, (value,), taken),
        call_ensures(Json::integer, (m,), first),
        call_ensures(Json::integer, (n,), second),
    ensures
        parsed is Ok <==> parse_outcome(text@) is Ok,
        parsed is Ok ==> parsed->Ok_0@ == parse_outcome(text@)->Ok_0 && parsed->Ok_0@.wf(),
        parsed is Err ==> parsed->Err_0@ == parse_outcome(text@)->Err_0,
        written@ == json_text(json@),
        taken@ == value_content(value),
        taken@.wf(),
        first@ == second@ <==> m == n,
{
}

/// A copy of a value is the same value.
pub proof fn law_copies_are_the_same(json: Json, copy: Json)
    requires
        call_ensures(Json::clone, (&json,), copy),
    ensures
        copy@ == json@,
{
}

/// The model of a value holds every part of it.
pub proof fn law_models_are_whole(items: Vec<Json>, members: Vec<(String, Json)>, i: int)
    ensures
        Json::Array(items)@ is Array,
        Json::Array(items)@->Array_0.len() == items@.len(),
        0 <= i < items@.len() ==> Json::Array(items)@->Array_0[i] == items@[i]@,
        Json::Object(members)@ is Object,
        Json::Object(members)@->Object_0.len() == members@.len(),
        0 <= i < members@.len() ==> Json::Object(members)@->Object_0[i] == (
            members@[i].0@,
            members@[i].1@,
        ),
{
}

/// Of two texts one comes before the other exactly if they differ.
pub proof fn law_texts_are_ordered(a: Seq<char>, b: Seq<char>)
    ensures
        a == b ==> !text_before(a, b),
        a != b ==> text_before(a, b) != text_before(b, a),
    decreases a.len(),
{
    if a.len() > 0 && b.len() > 0 && a[0] == b[0] {
        law_texts_are_ordered(a.drop_first(), b.drop_first());
        if a.drop_first() == b.drop_first() {
            assert(a =~= seq![a[0]] + a.drop_first());
            assert(b =~= seq![b[0]] + b.drop_first());
        }
    } else if a.len() == 0 && b.len() == 0 {
        assert(a =~= b);
    }
}

/// Texts are ordered by the first character in which they differ, and a text
/// comes before its continuations.
pub proof fn law_texts_are_ordered_by_characters(
    common: Seq<char>,
    c: char,
    d: char,
    a: Seq<char>,
    b: Seq<char>,
)
    ensures
        c < d ==> text_before(common + seq![c] + a, common + seq![d] + b),
        text_before(common, common + seq![c] + a),
    decreases common.len(),
{
    let first = common + seq![c] + a;
    let second = common + seq![d] + b;
    if common.len() > 0 {
        let rest = common.drop_first();
        law_texts_are_ordered_by_characters(rest, c, d, a, b);
        assert(first.drop_first() =~= rest + seq![c] + a);
        assert(second.drop_first() =~= rest + seq![d] + b);
    } else {
        assert(first[0] == c);
        assert(second[0] == d);
    }
}

} // verus!
