//! Which fields of a usage report are metrics, what they are called and which
//! period they belong to.
use crate::text::{chars_of, contains, joined, same_text};
#[allow(unused_imports)]
use crate::text::{lemma_occurs_in_whole, occurs_in, stands_at};
use vstd::prelude::*;
use vstd::string::*;

verus! {

/// `c` is an ASCII letter or digit.
pub open spec fn is_alphanumeric(c: char) -> bool {
    '0' <= c <= '9' || 'A' <= c <= 'Z' || 'a' <= c <= 'z'
}

/// `c`, where it is an ASCII capital letter in lower case.
pub open spec fn lowered(c: char) -> char {
    if 'A' <= c <= 'Z' {
        (c as int + 32) as char
    } else {
        c
    }
}

/// The ASCII letters and digits of `text`, in lower case.
pub open spec fn normal_form(text: Seq<char>) -> Seq<char> {
    text.filter(|c: char| is_alphanumeric(c)).map_values(|c: char| lowered(c))
}

/// The ASCII letters and digits of `value`, in lower case.
pub fn normalized(value: &str) -> (form: String)
    ensures
        form@ == normal_form(value@),
{
    let chars: Vec<char> = chars_of(value);
    let mut form: String = String::new();
    assert(form@ =~= normal_form(value@.take(0)));
    for i in 0..chars.len()
        invariant
            chars@ == value@,
            form@ == normal_form(value@.take(i as int)),
    {
        let c: char = chars[i];
        proof {
            lemma_normal_form_push(value@.take(i as int), c);
            assert(value@.take(i + 1) =~= value@.take(i as int).push(c));
        }
        if 'A' <= c && c <= 'Z' {
            form.push((c as u8 + 32) as char);
        } else if ('0' <= c && c <= '9') || ('a' <= c && c <= 'z') {
            form.push(c);
        }
    }
    assert(value@.take(value@.len() as int) =~= value@);
    form
}

proof fn lemma_normal_form_push(text: Seq<char>, c: char)
    ensures
        normal_form(text.push(c)) == if is_alphanumeric(c) {
            normal_form(text).push(lowered(c))
        } else {
            normal_form(text)
        },
{
    reveal(Seq::filter);
    assert(text.push(c).drop_last() =~= text);
    assert(normal_form(text.push(c)) =~= if is_alphanumeric(c) {
        normal_form(text).push(lowered(c))
    } else {
        normal_form(text)
    });
}

/// The normal form of two texts in a row is their normal forms in a row.
pub proof fn law_normal_form_of_parts(a: Seq<char>, b: Seq<char>)
    ensures
        normal_form(a + b) == normal_form(a) + normal_form(b),
{
    Seq::filter_distributes_over_add(a, b, |c: char| is_alphanumeric(c));
    assert(normal_form(a + b) =~= normal_form(a) + normal_form(b));
}

/// A normal form consists of digits and lower case letters and is its own
/// normal form.
pub proof fn law_normal_form_is_stable(text: Seq<char>)
    ensures
        forall|i: int|
            0 <= i < normal_form(text).len() ==> is_alphanumeric(#[trigger] normal_form(text)[i])
                && !('A' <= normal_form(text)[i] <= 'Z'),
        normal_form(normal_form(text)) == normal_form(text),
    decreases text.len(),
{
    if text.len() == 0 {
        reveal(Seq::filter);
        assert(normal_form(text) =~= Seq::<char>::empty());
        assert(normal_form(normal_form(text)) =~= Seq::<char>::empty());
    } else {
        let front = text.drop_last();
        law_normal_form_is_stable(front);
        assert(text =~= front.push(text.last()));
        lemma_normal_form_push(front, text.last());
        lemma_normal_form_push(normal_form(front), lowered(text.last()));
    }
}

/// Characters other than ASCII letters and digits, and the case of letters, do
/// not matter to the normal form.
pub proof fn law_separators_and_case_do_not_matter(a: Seq<char>, c: char, b: Seq<char>)
    ensures
        !is_alphanumeric(c) ==> normal_form(a + seq![c] + b) == normal_form(a + b),
        normal_form(a + seq![c] + b) == normal_form(a + seq![lowered(c)] + b),
{
    law_normal_form_of_parts(a, b);
    law_normal_form_of_parts(a + seq![c], b);
    law_normal_form_of_parts(a + seq![lowered(c)], b);
    assert(a + seq![c] =~= a.push(c));
    assert(a + seq![lowered(c)] =~= a.push(lowered(c)));
    lemma_normal_form_push(a, c);
    lemma_normal_form_push(a, lowered(c));
}

/// The key names an amount of tokens, credits or requests.
pub open spec fn is_usage_key(key: Seq<char>) -> bool {
    let form = normal_form(key);
    &&& occurs_in("token"@, form) || occurs_in("credit"@, form) || occurs_in("request"@, form)
    &&& {
        ||| occurs_in("used"@, form)
        ||| occurs_in("remaining"@, form)
        ||| occurs_in("available"@, form)
        ||| occurs_in("limit"@, form)
        ||| occurs_in("quota"@, form)
        ||| form == "tokens"@
        ||| form == "credits"@
        ||| form == "requests"@
    }
}

/// Whether the key names an amount of tokens, credits or requests.
pub fn is_usage_metric(key: &str) -> (usage: bool)
    ensures
        usage == is_usage_key(key@),
{
    let form: String = normalized(key);
    (contains(&form, "token") || contains(&form, "credit") || contains(&form, "request")) && (
    contains(&form, "used") || contains(&form, "remaining") || contains(&form, "available")
        || contains(&form, "limit") || contains(&form, "quota") || same_text(&form, "tokens")
        || same_text(&form, "credits") || same_text(&form, "requests"))
}

/// The key is a rate limit field and stands below a primary window.
pub open spec fn is_rate_limit_key(key: Seq<char>, parent_path: Seq<char>) -> bool {
    let form = normal_form(key);
    &&& occurs_in("primarywindow"@, normal_form(parent_path))
    &&& {
        ||| form == "usedpercent"@
        ||| form == "limitwindowseconds"@
        ||| form == "resetafterseconds"@
        ||| form == "resetat"@
        ||| form == "limitreached"@
    }
}

/// Whether the key is a rate limit field that stands below a primary window.
pub fn is_rate_limit_metric(key: &str, parent_path: &str) -> (limit: bool)
    ensures
        limit == is_rate_limit_key(key@, parent_path@),
{
    let form: String = normalized(key);
    contains(&normalized(parent_path), "primarywindow") && (same_text(&form, "usedpercent")
        || same_text(&form, "limitwindowseconds") || same_text(&form, "resetafterseconds")
        || same_text(&form, "resetat") || same_text(&form, "limitreached"))
}

/// What a usage key counts.
pub open spec fn unit_of(key: Seq<char>) -> Seq<char> {
    let form = normal_form(key);
    if occurs_in("credit"@, form) {
        "credits"@
    } else if occurs_in("request"@, form) {
        "requests"@
    } else {
        "tokens"@
    }
}

/// What a usage key says about what it counts.
pub open spec fn qualifier_of(key: Seq<char>) -> Seq<char> {
    let form = normal_form(key);
    if occurs_in("remaining"@, form) || occurs_in("available"@, form) {
        "remaining"@
    } else if occurs_in("limit"@, form) || occurs_in("quota"@, form) {
        "limit"@
    } else if occurs_in("used"@, form) {
        "used"@
    } else {
        "value"@
    }
}

/// The name of the metric that a usage key stands for.
pub open spec fn metric_title(key: Seq<char>) -> Seq<char> {
    unit_of(key) + "_"@ + qualifier_of(key)
}

/// The name of the metric that a usage key stands for.
pub fn metric_name(key: &str) -> (name: String)
    ensures
        name@ == metric_title(key@),
{
    let form: String = normalized(key);
    let unit: &str = if contains(&form, "credit") {
        "credits"
    } else if contains(&form, "request") {
        "requests"
    } else {
        "tokens"
    };
    let qualifier: &str = if contains(&form, "remaining") || contains(&form, "available") {
        "remaining"
    } else if contains(&form, "limit") || contains(&form, "quota") {
        "limit"
    } else if contains(&form, "used") {
        "used"
    } else {
        "value"
    };
    joined(&joined(unit, "_"), qualifier)
}

/// A text that lacks a character of `needle` does not hold `needle`.
pub proof fn lemma_absent_character(needle: Seq<char>, k: int, text: Seq<char>)
    requires
        0 <= k < needle.len(),
        !text.contains(needle[k]),
    ensures
        !occurs_in(needle, text),
{
    if occurs_in(needle, text) {
        let at: int = choose|at: int| #[trigger] stands_at(needle, text, at);
        assert(text.subrange(at, at + needle.len())[k] == text[at + k]);
    }
}

/// The characters of the words that names are made of and recognized by.
proof fn lemma_spellings()
    ensures
        "credits"@ == seq!['c', 'r', 'e', 'd', 'i', 't', 's'],
        "requests"@ == seq!['r', 'e', 'q', 'u', 'e', 's', 't', 's'],
        "tokens"@ == seq!['t', 'o', 'k', 'e', 'n', 's'],
        "remaining"@ == seq!['r', 'e', 'm', 'a', 'i', 'n', 'i', 'n', 'g'],
        "limit"@ == seq!['l', 'i', 'm', 'i', 't'],
        "used"@ == seq!['u', 's', 'e', 'd'],
        "value"@ == seq!['v', 'a', 'l', 'u', 'e'],
        "credit"@ == seq!['c', 'r', 'e', 'd', 'i', 't'],
        "request"@ == seq!['r', 'e', 'q', 'u', 'e', 's', 't'],
        "available"@ == seq!['a', 'v', 'a', 'i', 'l', 'a', 'b', 'l', 'e'],
        "quota"@ == seq!['q', 'u', 'o', 't', 'a'],
        "_"@ == seq!['_'],
{
    reveal_strlit("credits");
    reveal_strlit("requests");
    reveal_strlit("tokens");
    reveal_strlit("remaining");
    reveal_strlit("limit");
    reveal_strlit("used");
    reveal_strlit("value");
    reveal_strlit("credit");
    reveal_strlit("request");
    reveal_strlit("available");
    reveal_strlit("quota");
    reveal_strlit("_");
}

/// Digits and lower case letters are their own normal form.
pub proof fn lemma_lower_case_is_normal(text: Seq<char>)
    requires
        forall|i: int|
            0 <= i < text.len() ==> is_alphanumeric(#[trigger] text[i]) && !('A' <= text[i] <= 'Z'),
    ensures
        normal_form(text) == text,
    decreases text.len(),
{
    if text.len() == 0 {
        reveal(Seq::filter);
        assert(normal_form(text) =~= text);
    } else {
        let front = text.drop_last();
        assert forall|i: int| 0 <= i < front.len() implies is_alphanumeric(#[trigger] front[i])
            && !('A' <= front[i] <= 'Z') by {
            assert(front[i] == text[i]);
        }
        lemma_lower_case_is_normal(front);
        assert(text =~= front.push(text.last()));
        lemma_normal_form_push(front, text.last());
    }
}

spec fn is_unit(unit: Seq<char>) -> bool {
    unit == "credits"@ || unit == "requests"@ || unit == "tokens"@
}

spec fn is_qualifier(qualifier: Seq<char>) -> bool {
    qualifier == "remaining"@ || qualifier == "limit"@ || qualifier == "used"@ || qualifier
        == "value"@
}

/// A name has the normal form that its unit and its qualifier make.
proof fn lemma_name_form(unit: Seq<char>, qualifier: Seq<char>)
    requires
        is_unit(unit),
        is_qualifier(qualifier),
    ensures
        normal_form(unit + "_"@ + qualifier) == unit + qualifier,
{
    lemma_spellings();
    lemma_lower_case_is_normal(unit);
    lemma_lower_case_is_normal(qualifier);
    law_separators_and_case_do_not_matter(unit, '_', qualifier);
    law_normal_form_of_parts(unit, qualifier);
}

/// The unit of a name is the unit that it was made from.
proof fn lemma_name_unit(unit: Seq<char>, qualifier: Seq<char>)
    requires
        is_unit(unit),
        is_qualifier(qualifier),
    ensures
        unit_of(unit + "_"@ + qualifier) == unit,
{
    lemma_spellings();
    lemma_name_form(unit, qualifier);
    let form = unit + qualifier;
    if unit == "credits"@ {
        assert(form.subrange(0, 6) =~= "credit"@);
        assert(stands_at("credit"@, form, 0));
    } else {
        lemma_absent_character("credit"@, 0, form);
        if unit == "requests"@ {
            assert(form.subrange(0, 7) =~= "request"@);
            assert(stands_at("request"@, form, 0));
        } else {
            lemma_absent_character("request"@, 2, form);
        }
    }
}

/// The qualifier of a name is the qualifier that it was made from.
proof fn lemma_name_qualifier(unit: Seq<char>, qualifier: Seq<char>)
    requires
        is_unit(unit),
        is_qualifier(qualifier),
    ensures
        qualifier_of(unit + "_"@ + qualifier) == qualifier,
{
    lemma_spellings();
    lemma_name_form(unit, qualifier);
    let form = unit + qualifier;
    assert(form.subrange(unit.len() as int, form.len() as int) =~= qualifier);
    assert(stands_at(qualifier, form, unit.len() as int));
    if qualifier == "limit"@ {
        lemma_absent_character("remaining"@, 3, form);
        lemma_absent_character("available"@, 0, form);
    } else if qualifier == "used"@ {
        lemma_absent_character("remaining"@, 3, form);
        lemma_absent_character("available"@, 0, form);
        lemma_absent_character("limit"@, 0, form);
        lemma_absent_character("quota"@, 4, form);
    } else if qualifier == "value"@ {
        lemma_absent_character("remaining"@, 2, form);
        lemma_absent_character("available"@, 6, form);
        lemma_absent_character("limit"@, 2, form);
        if unit == "credits"@ {
            lemma_absent_character("quota"@, 2, form);
            assert forall|at: int| !#[trigger] stands_at("used"@, form, at) by {
                if stands_at("used"@, form, at) {
                    assert(form.subrange(at, at + 4)[0] == form[at]);
                    assert(form.subrange(at, at + 4)[1] == form[at + 1]);
                }
            }
        } else {
            lemma_absent_character("used"@, 3, form);
            lemma_absent_character("quota"@, if unit == "requests"@ {
                2
            } else {
                0
            }, form);
        }
    }
}

/// A name of a metric, taken as a key, is its own name.
pub proof fn law_names_are_stable(key: Seq<char>)
    ensures
        metric_title(metric_title(key)) == metric_title(key),
{
    lemma_name_unit(unit_of(key), qualifier_of(key));
    lemma_name_qualifier(unit_of(key), qualifier_of(key));
}

/// The name of a usage key ends in `_value` exactly if the key is nothing but
/// what it counts, up to separators and case.
pub proof fn law_plain_keys_are_values(key: Seq<char>)
    requires
        is_usage_key(key),
    ensures
        "_value"@.is_suffix_of(metric_title(key)) <==> normal_form(key) == "tokens"@ || normal_form(
            key,
        ) == "credits"@ || normal_form(key) == "requests"@,
{
    lemma_spellings();
    reveal_strlit("_value");
    let form = normal_form(key);
    let title = metric_title(key);
    if form == "tokens"@ || form == "credits"@ || form == "requests"@ {
        if form == "tokens"@ {
            lemma_absent_character("remaining"@, 0, form);
        } else {
            lemma_absent_character("remaining"@, 2, form);
        }
        lemma_absent_character("available"@, 0, form);
        lemma_absent_character("limit"@, 0, form);
        lemma_absent_character("quota"@, 4, form);
        if form == "requests"@ {
            lemma_absent_character("used"@, 3, form);
        } else {
            lemma_absent_character("used"@, 0, form);
        }
        assert(title.subrange(title.len() - 6, title.len() as int) =~= "_value"@);
    } else {
        assert(qualifier_of(key) != "value"@);
        assert(title.last() == qualifier_of(key).last());
        if "_value"@.is_suffix_of(title) {
            assert("_value"@.last() == title.last());
        }
    }
}

/// The path speaks of a week.
pub open spec fn is_weekly(path: Seq<char>) -> bool {
    let form = normal_form(path);
    occurs_in("week"@, form) || occurs_in("7day"@, form) || occurs_in("sevenday"@, form)
}

/// The path speaks of a month.
pub open spec fn is_monthly(path: Seq<char>) -> bool {
    let form = normal_form(path);
    occurs_in("month"@, form) || occurs_in("30day"@, form) || occurs_in("thirtyday"@, form)
}

/// The period that a path belongs to.
pub open spec fn period_of(path: Seq<char>) -> Seq<char> {
    if is_weekly(path) {
        "weekly"@
    } else if is_monthly(path) {
        "monthly"@
    } else {
        "other"@
    }
}

/// The period that a path belongs to.
pub fn period_for_path(path: &str) -> (period: &'static str)
    ensures
        period@ == period_of(path@),
{
    let form: String = normalized(path);
    if contains(&form, "week") || contains(&form, "7day") || contains(&form, "sevenday") {
        "weekly"
    } else if contains(&form, "month") || contains(&form, "30day") || contains(
        &form,
        "thirtyday",
    ) {
        "monthly"
    } else {
        "other"
    }
}

/// A path that holds a weekly path is weekly, whatever stands before and after.
pub proof fn law_weekly_is_inherited(above: Seq<char>, path: Seq<char>, below: Seq<char>)
    requires
        is_weekly(path),
    ensures
        is_weekly(above + path + below),
        period_of(above + path + below) == "weekly"@,
{
    law_normal_form_of_parts(above + path, below);
    law_normal_form_of_parts(above, path);
    lemma_part_occurs(normal_form(above), normal_form(path), normal_form(below));
}

/// A path that holds a monthly path is monthly, whatever stands before and
/// after, unless it is weekly.
pub proof fn law_monthly_is_inherited(above: Seq<char>, path: Seq<char>, below: Seq<char>)
    requires
        is_monthly(path),
    ensures
        is_monthly(above + path + below),
        period_of(above + path + below) == "monthly"@ || period_of(above + path + below)
            == "weekly"@,
{
    law_normal_form_of_parts(above + path, below);
    law_normal_form_of_parts(above, path);
    lemma_part_occurs(normal_form(above), normal_form(path), normal_form(below));
}

proof fn lemma_part_occurs(before: Seq<char>, part: Seq<char>, after: Seq<char>)
    ensures
        forall|needle: Seq<char>|
            occurs_in(needle, part) ==> #[trigger] occurs_in(needle, before + part + after),
{
    assert forall|needle: Seq<char>| occurs_in(needle, part) implies #[trigger] occurs_in(
        needle,
        before + part + after,
    ) by {
        lemma_occurs_in_whole(needle, before, part, after);
    }
}

/// No field is both a usage metric and a rate limit metric.
pub proof fn law_kinds_of_metrics_exclude_each_other(key: Seq<char>, parent_path: Seq<char>)
    ensures
        !(is_usage_key(key) && is_rate_limit_key(key, parent_path)),
{
    if is_rate_limit_key(key, parent_path) {
        let form = normal_form(key);
        lemma_spellings();
        reveal_strlit("token");
        reveal_strlit("usedpercent");
        reveal_strlit("limitwindowseconds");
        reveal_strlit("resetafterseconds");
        reveal_strlit("resetat");
        reveal_strlit("limitreached");
        assert("token"@ =~= seq!['t', 'o', 'k', 'e', 'n']);
        if form == "usedpercent"@ {
            assert(form =~= seq!['u', 's', 'e', 'd', 'p', 'e', 'r', 'c', 'e', 'n', 't']);
            lemma_absent_character("credit"@, 4, form);
        } else if form == "limitwindowseconds"@ {
            assert(form =~= seq![
                'l', 'i', 'm', 'i', 't', 'w', 'i', 'n', 'd', 'o', 'w', 's', 'e', 'c', 'o', 'n', 'd',
                's',
            ]);
            lemma_absent_character("credit"@, 1, form);
        } else if form == "resetafterseconds"@ {
            assert(form =~= seq![
                'r', 'e', 's', 'e', 't', 'a', 'f', 't', 'e', 'r', 's', 'e', 'c', 'o', 'n', 'd', 's',
            ]);
            lemma_absent_character("credit"@, 4, form);
        } else if form == "resetat"@ {
            assert(form =~= seq!['r', 'e', 's', 'e', 't', 'a', 't']);
            lemma_absent_character("credit"@, 0, form);
        } else {
            assert(form =~= seq!['l', 'i', 'm', 'i', 't', 'r', 'e', 'a', 'c', 'h', 'e', 'd']);
            assert forall|at: int| !#[trigger] stands_at("credit"@, form, at) by {
                if stands_at("credit"@, form, at) {
                    assert(form.subrange(at, at + 6)[0] == form[at]);
                    assert(form.subrange(at, at + 6)[1] == form[at + 1]);
                }
            }
        }
        lemma_absent_character("token"@, 2, form);
        lemma_absent_character("request"@, 2, form);
    }
}

} // verus!
