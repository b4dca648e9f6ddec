//! Laws of text: lists read from the front, numbers read back, and trimming
//! takes white space and nothing else.

use vstd::prelude::*;
use crate::text::{
    decimal, digit_value, digits_value, is_space, separated, spelled_u64, trimmed, trimmed_end,
    trimmed_start, without_plus,
};

verus! {

/// A list reads from the front: its first item, and then, after a separator,
/// the rest.
pub proof fn a_list_reads_from_the_front(
    first: Seq<char>,
    rest: Seq<Seq<char>>,
    separator: Seq<char>,
)
    ensures
        separated(Seq::empty(), separator) == Seq::<char>::empty(),
        separated(seq![first] + rest, separator) == if rest.len() == 0 {
            first
        } else {
            first + separator + separated(rest, separator)
        },
    decreases rest.len(),
{
    let all = seq![first] + rest;
    if rest.len() == 0 {
        assert(all =~= seq![first]);
    } else {
        let shorter = rest.drop_last();
        a_list_reads_from_the_front(first, shorter, separator);
        assert(all.drop_last() =~= seq![first] + shorter);
        assert(all.last() == rest.last());
        if shorter.len() == 0 {
            assert(rest =~= seq![rest.last()]);
        } else {
            assert(separated(all, separator) =~= first + separator + separated(rest, separator));
        }
    }
}

/// A list whose items and separator are free of a character is free of it.
pub proof fn a_list_holds_nothing_else(items: Seq<Seq<char>>, separator: Seq<char>, c: char)
    requires
        !separator.contains(c),
        forall|i: int| 0 <= i < items.len() ==> !(#[trigger] items[i]).contains(c),
    ensures
        !separated(items, separator).contains(c),
    decreases items.len(),
{
    if items.len() > 1 {
        let shorter = items.drop_last();
        assert forall|i: int| 0 <= i < shorter.len() implies !(#[trigger] shorter[i]).contains(
            c,
        ) by {
            assert(shorter[i] == items[i]);
        }
        a_list_holds_nothing_else(shorter, separator, c);
        let before = separated(shorter, separator);
        let all = before + separator + items.last();
        if all.contains(c) {
            let at = choose|at: int| 0 <= at < all.len() && all[at] == c;
            if at < before.len() {
                assert(before[at] == c);
            } else if at < before.len() + separator.len() {
                assert(separator[at - before.len()] == c);
            } else {
                assert(items.last()[at - before.len() - separator.len()] == c);
                assert(items.last() == items[items.len() - 1]);
            }
        }
    }
}

/// The decimal form of a number ends in its last digit, behind the decimal form
/// of the rest; a single digit stands alone.
pub proof fn decimals_are_written_digit_by_digit(rest: nat, last: nat)
    requires
        last < 10,
    ensures
        ({
            let text = decimal(rest * 10 + last);
            &&& text.last() as u32 == 0x30 + last
            &&& rest == 0 ==> text.len() == 1
            &&& rest > 0 ==> text.drop_last() == decimal(rest)
        }),
{
    let value = rest * 10 + last;
    assert(value % 10 == last && value / 10 == rest);
    if rest > 0 {
        assert(decimal(value).drop_last() =~= decimal(rest));
    }
}

/// The decimal form of a number consists of digits, and stands for that number.
proof fn lemma_digits_of_decimal(value: nat)
    ensures
        digits_value(decimal(value)) == Some(value as int),
        decimal(value).len() > 0,
        forall|i: int|
            0 <= i < decimal(value).len() ==> digit_value(#[trigger] decimal(value)[i]) is Some,
    decreases value,
{
    let text = decimal(value);
    if value < 10 {
        assert(text.drop_last() =~= Seq::<char>::empty());
        assert(digits_value(text.drop_last()) == Some(0int));
    } else {
        lemma_digits_of_decimal(value / 10);
        assert(text.drop_last() =~= decimal(value / 10));
        assert forall|i: int| 0 <= i < text.len() implies digit_value(
            #[trigger] text[i],
        ) is Some by {
            if i < text.len() - 1 {
                assert(text[i] == decimal(value / 10)[i]);
            }
        }
    }
}

/// A number written in decimal reads back as that number, with or without a
/// plus sign.
pub proof fn numbers_read_back(value: u64)
    ensures
        spelled_u64(decimal(value as nat)) == Some(value),
        spelled_u64(seq!['+'] + decimal(value as nat)) == Some(value),
{
    let text = decimal(value as nat);
    lemma_digits_of_decimal(value as nat);
    assert(digit_value(text[0]) is Some);
    assert(without_plus(text) == text);
    assert(without_plus(seq!['+'] + text) =~= text);
}

/// Different numbers have different decimal forms.
pub proof fn decimals_are_distinct(a: nat, b: nat)
    requires
        a != b,
    ensures
        decimal(a) != decimal(b),
{
    lemma_digits_of_decimal(a);
    lemma_digits_of_decimal(b);
}

/// A text with a character that is no digit, other than one leading plus sign,
/// is no number; neither is the empty text.
pub proof fn other_texts_are_no_numbers(text: Seq<char>, at: int)
    requires
        text.len() == 0 || 0 <= at < text.len() && !('0' <= text[at] <= '9') && (at > 0
            || text[at] != '+'),
    ensures
        spelled_u64(text) is None,
{
    if text.len() > 0 {
        let digits = without_plus(text);
        let place = if text[0] == '+' {
            at - 1
        } else {
            at
        };
        assert(digits[place] == text[at]);
        lemma_no_digit(digits, place);
    }
}

/// The digits are the characters from `0` to `9`.
proof fn lemma_digit_range(c: char)
    ensures
        digit_value(c) is Some == ('0' <= c <= '9'),
{
}

/// A run with a character that is no digit is no number.
proof fn lemma_no_digit(digits: Seq<char>, at: int)
    requires
        0 <= at < digits.len(),
        !('0' <= digits[at] <= '9'),
    ensures
        digits_value(digits) is None,
    decreases digits.len(),
{
    if at < digits.len() - 1 {
        assert(digits.drop_last()[at] == digits[at]);
        lemma_no_digit(digits.drop_last(), at);
    } else {
        assert(digits.last() == digits[at]);
        lemma_digit_range(digits.last());
    }
}

/// White space in front goes.
proof fn lemma_trim_front(space: Seq<char>, text: Seq<char>)
    requires
        forall|i: int| 0 <= i < space.len() ==> is_space(#[trigger] space[i]),
        text.len() == 0 || !is_space(text[0]),
    ensures
        trimmed_start(space + text) == text,
    decreases space.len(),
{
    if space.len() == 0 {
        assert(space + text =~= text);
    } else {
        assert((space + text)[0] == space[0]);
        assert((space + text).drop_first() =~= space.drop_first() + text);
        lemma_trim_front(space.drop_first(), text);
    }
}

/// White space behind goes.
proof fn lemma_trim_back(text: Seq<char>, space: Seq<char>)
    requires
        forall|i: int| 0 <= i < space.len() ==> is_space(#[trigger] space[i]),
        text.len() == 0 || !is_space(text.last()),
    ensures
        trimmed_end(text + space) == text,
    decreases space.len(),
{
    if space.len() == 0 {
        assert(text + space =~= text);
    } else {
        assert((text + space).last() == space.last());
        assert((text + space).drop_last() =~= text + space.drop_last());
        lemma_trim_back(text, space.drop_last());
    }
}

/// Trimming takes the white space off both ends and nothing else: a text with
/// no white space at its ends comes out of any white space around it.
pub proof fn trimming_takes_only_white_space(front: Seq<char>, text: Seq<char>, back: Seq<char>)
    requires
        forall|i: int| 0 <= i < front.len() ==> is_space(#[trigger] front[i]),
        forall|i: int| 0 <= i < back.len() ==> is_space(#[trigger] back[i]),
        text.len() > 0 ==> !is_space(text[0]) && !is_space(text.last()),
    ensures
        trimmed(front + text + back) == text,
{
    assert(front + text + back =~= front + (text + back));
    if text.len() == 0 {
        let space = front + back;
        assert(front + (text + back) =~= space + Seq::<char>::empty());
        assert forall|i: int| 0 <= i < space.len() implies is_space(#[trigger] space[i]) by {
            if i < front.len() {
                assert(space[i] == front[i]);
            } else {
                assert(space[i] == back[i - front.len()]);
            }
        }
        lemma_trim_front(space, Seq::empty());
        assert(text =~= Seq::<char>::empty());
    } else {
        assert((text + back)[0] == text[0]);
        lemma_trim_front(front, text + back);
        lemma_trim_back(text, back);
    }
}

/// Blanks, tabs and line breaks are white space; no printable ASCII character
/// is.
pub proof fn what_white_space_is(c: char)
    ensures
        c == ' ' || c == '\t' || c == '\n' || c == '\r' ==> is_space(c),
        '!' <= c <= '~' ==> !is_space(c),
{
}

} // verus!
