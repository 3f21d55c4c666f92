//! What makes a field a metric, what it is called and when it counts, word by
//! word.
#![allow(unused_imports)]
use crate::classify::{
    is_rate_limit_key, is_rate_limit_metric, is_usage_key, is_usage_metric, metric_name,
    metric_title, normal_form, normalized, period_for_path, period_of, qualifier_of, unit_of,
};
use crate::text::occurs_in;
use crate::text_laws::{holds, law_occurrences_split_the_text};
use vstd::prelude::*;

verus! {

/// A normal form is made character by character: digits and lower case letters
/// stay, capital letters become lower case, and everything else goes.
pub proof fn law_normal_form_by_character(text: Seq<char>, c: char)
    ensures
        normal_form(Seq::empty()) == Seq::<char>::empty(),
        '0' <= c <= '9' || 'a' <= c <= 'z' ==> normal_form(text + seq![c]) == normal_form(text)
            + seq![c],
        'A' <= c <= 'Z' ==> normal_form(text + seq![c]) == normal_form(text) + seq![
            (c as int - 'A' as int + 'a' as int) as char,
        ],
        !('0' <= c <= '9' || 'a' <= c <= 'z' || 'A' <= c <= 'Z') ==> normal_form(text + seq![c])
            == normal_form(text),
{
    reveal(Seq::filter);
    assert(normal_form(Seq::empty()) =~= Seq::<char>::empty());
    assert((text + seq![c]).drop_last() =~= text);
    assert(text + seq![c] =~= text.push(c));
    let all = normal_form(text + seq![c]);
    if '0' <= c <= '9' || 'a' <= c <= 'z' {
        assert(all =~= normal_form(text) + seq![c]);
    } else if 'A' <= c <= 'Z' {
        assert(all =~= normal_form(text) + seq![(c as int - 'A' as int + 'a' as int) as char]);
    } else {
        assert(all =~= normal_form(text));
    }
}

/// What the executable normal form gives is the normal form.
pub proof fn law_normalized_texts(value: &str, more: char, longer: &str, form: String, next: String)
    requires
        call_ensures(normalized, (value,), form),
        call_ensures(normalized, (longer,), next),
        longer@ == value@ + seq![more],
    ensures
        '0' <= more <= '9' || 'a' <= more <= 'z' ==> next@ == form@ + seq![more],
        'A' <= more <= 'Z' ==> next@ == form@ + seq![
            (more as int - 'A' as int + 'a' as int) as char,
        ],
        !('0' <= more <= '9' || 'a' <= more <= 'z' || 'A' <= more <= 'Z') ==> next@ == form@,
{
    law_normal_form_by_character(value@, more);
}

/// A word for what is counted.
pub open spec fn is_unit_word(word: Seq<char>) -> bool {
    word == "token"@ || word == "credit"@ || word == "request"@
}

/// A word for an amount.
pub open spec fn is_amount_word(word: Seq<char>) -> bool {
    ||| word == "used"@
    ||| word == "remaining"@
    ||| word == "available"@
    ||| word == "limit"@
    ||| word == "quota"@
}

/// A key whose normal form holds a word for what is counted and a word for an
/// amount, in either order and with anything around and between them, is a usage
/// key.
pub proof fn law_unit_and_amount_make_a_usage_key(
    key: Seq<char>,
    a: Seq<char>,
    unit: Seq<char>,
    b: Seq<char>,
    amount: Seq<char>,
    c: Seq<char>,
)
    requires
        is_unit_word(unit),
        is_amount_word(amount),
        normal_form(key) == a + unit + b + amount + c || normal_form(key) == a + amount + b + unit
            + c,
    ensures
        is_usage_key(key),
{
    let form = normal_form(key);
    if form == a + unit + b + amount + c {
        assert(form =~= a + unit + (b + amount + c));
        assert(form == (a + unit + b) + amount + c);
    } else {
        assert(form =~= a + amount + (b + unit + c));
        assert(form == (a + amount + b) + unit + c);
    }
    assert(holds(form, unit));
    assert(holds(form, amount));
    law_occurrences_split_the_text(unit, form);
    law_occurrences_split_the_text(amount, form);
}

/// A key with the normal form `form` names an amount of something counted: it
/// holds a word for each, or is the bare plural of what is counted.
pub open spec fn names_an_amount(form: Seq<char>) -> bool {
    ||| form == "tokens"@ || form == "credits"@ || form == "requests"@
    ||| {
        &&& holds(form, "token"@) || holds(form, "credit"@) || holds(form, "request"@)
        &&& {
            ||| holds(form, "used"@)
            ||| holds(form, "remaining"@)
            ||| holds(form, "available"@)
            ||| holds(form, "limit"@)
            ||| holds(form, "quota"@)
        }
    }
}

/// A key with the normal form `form`, below a path with the normal form `above`,
/// is one of the five rate limit fields of a primary window.
pub open spec fn names_a_rate_limit(form: Seq<char>, above: Seq<char>) -> bool {
    holds(above, "primarywindow"@) && {
        ||| form == "usedpercent"@
        ||| form == "limitwindowseconds"@
        ||| form == "resetafterseconds"@
        ||| form == "resetat"@
        ||| form == "limitreached"@
    }
}

/// `name` says what is counted under a key with the normal form `form`, with
/// credits before requests before tokens, and which amount it is, with what
/// remains before limits before what is used.
pub open spec fn is_name_for(name: Seq<char>, form: Seq<char>) -> bool {
    let remaining = holds(form, "remaining"@) || holds(form, "available"@);
    let limit = holds(form, "limit"@) || holds(form, "quota"@);
    let used = holds(form, "used"@);
    exists|unit: Seq<char>, amount: Seq<char>|
        {
            &&& name == #[trigger] (unit + "_"@ + amount)
            &&& holds(form, "credit"@) ==> unit == "credits"@
            &&& !holds(form, "credit"@) && holds(form, "request"@) ==> unit == "requests"@
            &&& !holds(form, "credit"@) && !holds(form, "request"@) ==> unit == "tokens"@
            &&& remaining ==> amount == "remaining"@
            &&& !remaining && limit ==> amount == "limit"@
            &&& !remaining && !limit && used ==> amount == "used"@
            &&& !remaining && !limit && !used ==> amount == "value"@
        }
}

/// `period` is the week if a path with the normal form `form` holds a word for a
/// week, else the month if it holds a word for a month, else neither.
pub open spec fn is_period_for(period: Seq<char>, form: Seq<char>) -> bool {
    let week = holds(form, "week"@) || holds(form, "7day"@) || holds(form, "sevenday"@);
    let month = holds(form, "month"@) || holds(form, "30day"@) || holds(form, "thirtyday"@);
    &&& week ==> period == "weekly"@
    &&& !week && month ==> period == "monthly"@
    &&& !week && !month ==> period == "other"@
}

/// Whether a field is a metric, what it is called and when it counts is decided
/// by the words in its key and its path.
pub proof fn law_metrics_by_words(key: Seq<char>, path: Seq<char>)
    ensures
        is_usage_key(key) <==> names_an_amount(normal_form(key)),
        is_rate_limit_key(key, path) <==> names_a_rate_limit(normal_form(key), normal_form(path)),
        is_name_for(metric_title(key), normal_form(key)),
        is_period_for(period_of(path), normal_form(path)),
{
    lemma_occurring_is_splitting(normal_form(key));
    lemma_occurring_is_splitting(normal_form(path));
    lemma_plurals_hold_their_words();
    assert(metric_title(key) == unit_of(key) + "_"@ + qualifier_of(key));
}

/// What is told of a key and a path is decided by the words in them.
pub proof fn law_answers_by_words(
    key: &str,
    path: &str,
    usage: bool,
    limit: bool,
    name: String,
    period: &'static str,
)
    requires
        call_ensures(is_usage_metric, (key,), usage),
        call_ensures(is_rate_limit_metric, (key, path), limit),
        call_ensures(metric_name, (key,), name),
        call_ensures(period_for_path, (path,), period),
    ensures
        usage <==> names_an_amount(normal_form(key@)),
        limit <==> names_a_rate_limit(normal_form(key@), normal_form(path@)),
        is_name_for(name@, normal_form(key@)),
        is_period_for(period@, normal_form(path@)),
{
    law_metrics_by_words(key@, path@);
}

/// For every word, occurring in a text is splitting it.
proof fn lemma_occurring_is_splitting(text: Seq<char>)
    ensures
        forall|word: Seq<char>| #[trigger] occurs_in(word, text) <==> holds(text, word),
{
    assert forall|word: Seq<char>| #[trigger] occurs_in(word, text) <==> holds(text, word) by {
        law_occurrences_split_the_text(word, text);
    }
}

proof fn lemma_plurals_hold_their_words()
    ensures
        holds("tokens"@, "token"@),
        holds("credits"@, "credit"@),
        holds("requests"@, "request"@),
{
    reveal_strlit("tokens");
    reveal_strlit("credits");
    reveal_strlit("requests");
    reveal_strlit("token");
    reveal_strlit("credit");
    reveal_strlit("request");
    assert("tokens"@ =~= Seq::<char>::empty() + "token"@ + seq!['s']);
    assert("credits"@ =~= Seq::<char>::empty() + "credit"@ + seq!['s']);
    assert("requests"@ =~= Seq::<char>::empty() + "request"@ + seq!['s']);
}

} // verus!
