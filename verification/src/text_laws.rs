//! What holds of texts and numerals.
#![allow(unused_imports)]
use crate::text::{
    bounded_value, contains, decimal, decimal_text, digits_value, is_blank, is_blank_text, is_digit,
    is_white_space, law_numeral_reads_back, numeral_value, occurs_in, parse_unsigned,
    stands_at, unsigned_value,
};
use vstd::prelude::*;

verus! {

/// `text` is something, then `word`, then something.
pub open spec fn holds(text: Seq<char>, word: Seq<char>) -> bool {
    exists|before: Seq<char>, after: Seq<char>| text == #[trigger] (before + word + after)
}

/// A word occurs in a text exactly if the text is something, then the word, then
/// something.
pub proof fn law_occurrences_split_the_text(word: Seq<char>, text: Seq<char>)
    ensures
        occurs_in(word, text) <==> holds(text, word),
{
    if occurs_in(word, text) {
        let at: int = choose|at: int| #[trigger] stands_at(word, text, at);
        let after = text.skip(at + word.len());
        assert(text =~= text.take(at) + text.subrange(at, at + word.len()) + after);
        assert(text == text.take(at) + word + after);
    }
    if holds(text, word) {
        let (before, after) = choose|before: Seq<char>, after: Seq<char>|
            text == #[trigger] (before + word + after);
        let at: int = before.len() as int;
        assert(text.subrange(at, at + word.len()) =~= word);
        assert(stands_at(word, text, at));
    }
}

/// The search for a word finds it exactly where the text can be split around it.
pub proof fn law_search_finds_the_splits(text: &str, word: &str, found: bool)
    requires
        call_ensures(contains, (text, word), found),
    ensures
        found <==> holds(text@, word@),
{
    law_occurrences_split_the_text(word@, text@);
}

/// A numeral has its last digit at its end and the number of tens before it.
pub proof fn law_decimal_places(n: nat, d: nat)
    requires
        d < 10,
    ensures
        decimal(d) == seq![('0' as int + d) as char],
        n > 0 ==> decimal(10 * n + d) == decimal(n) + seq![('0' as int + d) as char],
{
    if n > 0 {
        assert((10 * n + d) / 10 == n);
        assert((10 * n + d) % 10 == d);
        assert(decimal(n) + seq![('0' as int + d) as char] =~= decimal(n).push(
            ('0' as int + d) as char,
        ));
    }
}

/// A digit denotes its value, a further digit takes the tenfold and adds its
/// value, and a leading `+` changes nothing.
pub proof fn law_digits_denote_by_place(digits: Seq<char>, n: nat, d: nat)
    requires
        d < 10,
    ensures
        unsigned_value(seq![('0' as int + d) as char]) == Some(d),
        unsigned_value(digits) == Some(n) ==> unsigned_value(
            digits + seq![('0' as int + d) as char],
        ) == Some((10 * n + d) as nat),
        unsigned_value(digits) == Some(n) && digits[0] != '+' ==> unsigned_value(
            seq!['+'] + digits,
        ) == Some(n),
{
    let c = ('0' as int + d) as char;
    let one = seq![c];
    assert(one.drop_last() =~= Seq::<char>::empty());
    assert(digits_value(Seq::<char>::empty()) == 0);
    assert(is_digit(one[0]));
    assert(unsigned_value(one) == Some(d));
    if unsigned_value(digits) == Some(n) {
        let more = digits + one;
        let start: int = if digits[0] == '+' {
            1
        } else {
            0
        };
        let old = digits.skip(start);
        let new = more.skip(start);
        assert(start == 0 ==> old =~= digits && new =~= more);
        assert(start == 1 ==> old =~= digits.drop_first() && new =~= more.drop_first());
        assert(new.drop_last() =~= old);
        assert(new.last() == c);
        assert forall|i: int| 0 <= i < new.len() implies is_digit(#[trigger] new[i]) by {
            if i < old.len() {
                assert(new[i] == old[i]);
            }
        }
        assert((seq!['+'] + digits).drop_first() =~= digits);
    }
}

/// A text with anything but digits after an optional leading `+`, or without a
/// digit, denotes no number.
pub proof fn law_other_texts_denote_nothing(text: Seq<char>, i: int)
    ensures
        text.len() == 0 ==> unsigned_value(text) is None,
        text == seq!['+'] ==> unsigned_value(text) is None,
        0 <= i < text.len() && !('0' <= text[i] <= '9') && (i > 0 || text[i] != '+')
            ==> unsigned_value(text) is None,
{
    if text == seq!['+'] {
        assert(text.drop_first().len() == 0);
    }
    if 0 <= i < text.len() && !('0' <= text[i] <= '9') && (i > 0 || text[i] != '+') {
        if text[0] == '+' {
            assert(text.drop_first()[i - 1] == text[i]);
            assert(!is_digit(text.drop_first()[i - 1]));
        } else {
            assert(!is_digit(text[i]));
        }
    }
}

/// A number that is read is the one that the text denotes, and it is read
/// exactly if it is not above `max`.
pub proof fn law_numbers_are_read_up_to_the_bound(text: &str, max: u64, n: nat, value: Option<u64>)
    requires
        call_ensures(parse_unsigned, (text, max), value),
    ensures
        unsigned_value(text@) is None ==> value is None,
        unsigned_value(text@) == Some(n) ==> (value is Some <==> n <= max),
        unsigned_value(text@) == Some(n) && n <= max ==> value->0 == n,
        text@ == decimal(n) && n <= max ==> value is Some && value->0 == n,
        text@ == decimal(n) && n > max ==> value is None,
{
    law_numeral_reads_back(n);
}

/// What is written for a number is read as that number.
pub proof fn law_written_numbers_are_read(
    n: u64,
    text: String,
    read: &str,
    max: u64,
    value: Option<u64>,
)
    requires
        call_ensures(decimal_text, (n,), text),
        call_ensures(parse_unsigned, (read, max), value),
        read@ == text@,
        n <= max,
    ensures
        value == Some(n),
{
    law_numeral_reads_back(n as nat);
}

/// A character is blank exactly if Unicode calls it white space: the ASCII
/// spaces and controls from tab to carriage return, and the other spaces.
pub proof fn law_blank_characters(c: char)
    ensures
        is_blank_text(seq![c]) <==> {
            ||| c == ' ' || c == '\t' || c == '\n' || c == '\r' || c as u32 == 0xB || c as u32 == 0xC
            ||| c as u32 == 0x85 || c as u32 == 0xA0 || c as u32 == 0x1680
            ||| 0x2000 <= c as u32 <= 0x200A
            ||| c as u32 == 0x2028 || c as u32 == 0x2029 || c as u32 == 0x202F
            ||| c as u32 == 0x205F || c as u32 == 0x3000
        },
{
    let one = seq![c];
    assert(one[0] == c);
    if is_white_space(c) {
        assert(forall|i: int| 0 <= i < one.len() ==> one[i] == c);
    } else {
        assert(!is_white_space(one[0]));
    }
}

/// A text is blank exactly if all of its characters are, and the parts of a text
/// are blank exactly if the whole is.
pub proof fn law_blank_texts(a: Seq<char>, b: Seq<char>)
    ensures
        is_blank_text(Seq::empty()),
        is_blank_text(a) <==> forall|i: int| 0 <= i < a.len() ==> is_blank_text(#[trigger] seq![a[i]]),
        is_blank_text(a + b) <==> is_blank_text(a) && is_blank_text(b),
{
    assert forall|i: int| 0 <= i < a.len() implies (is_blank_text(#[trigger] seq![a[i]])
        <==> is_white_space(a[i])) by {
        let one = seq![a[i]];
        assert(one[0] == a[i]);
    }
    if is_blank_text(a) {
        assert forall|i: int| 0 <= i < a.len() implies is_blank_text(#[trigger] seq![a[i]]) by {
            assert(is_white_space(a[i]));
        }
    }
    if forall|i: int| 0 <= i < a.len() ==> is_blank_text(#[trigger] seq![a[i]]) {
        assert forall|i: int| 0 <= i < a.len() implies is_white_space(#[trigger] a[i]) by {
            assert(is_blank_text(seq![a[i]]));
        }
    }
    if is_blank_text(a + b) {
        assert forall|i: int| 0 <= i < a.len() implies is_white_space(#[trigger] a[i]) by {
            assert((a + b)[i] == a[i]);
        }
        assert forall|i: int| 0 <= i < b.len() implies is_white_space(#[trigger] b[i]) by {
            assert((a + b)[a.len() + i] == b[i]);
        }
    }
}

/// A text with a printing ASCII character is not blank; one of spaces and tabs
/// is.
pub proof fn law_blank_lines(text: &str, i: int, blank: bool)
    requires
        call_ensures(is_blank, (text,), blank),
    ensures
        0 <= i < text@.len() && '!' <= text@[i] <= '~' ==> !blank,
        (forall|j: int|
            0 <= j < text@.len() ==> #[trigger] text@[j] == ' ' || text@[j] == '\t') ==> blank,
{
    if 0 <= i < text@.len() && '!' <= text@[i] <= '~' {
        assert(!is_white_space(text@[i]));
    }
}

} // verus!
