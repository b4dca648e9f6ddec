//! Text as sequences of characters.
//!
//! Small building blocks shared by every module that puts words on screen or
//! edits what the user types: building strings, comparing them, trimming them,
//! writing and reading decimal numbers, and measuring them in UTF-8 bytes.

use vstd::prelude::*;
use vstd::string::*;
use vstd::utf8::*;

verus! {

/// `String::push` appends one character to the end of the string.
pub assume_specification[ String::push ](text: &mut String, c: char)
    ensures
        final(text)@ == old(text)@.push(c),
;

/// The views of a sequence of values, element by element.
pub open spec fn views<T: View>(items: Seq<T>) -> Seq<T::V> {
    Seq::new(items.len(), |i: int| items[i]@)
}

/// The view of an optional value.
pub open spec fn view_of<T: View>(item: Option<T>) -> Option<T::V> {
    match item {
        Some(inner) => Some(inner@),
        None => None,
    }
}

/// The characters of `s`, as a vector that can be indexed.
pub fn chars_of(s: &str) -> (chars: Vec<char>)
    ensures
        chars@ == s@,
{
    let mut chars: Vec<char> = Vec::new();
    for c in it: s.chars()
        invariant
            it.seq() == s@,
            chars@ == s@.take(it.index()),
    {
        chars.push(c);
        assert(s@.take(it.index() + 1) =~= s@.take(it.index()).push(c));
    }
    assert(s@.take(s@.len() as int) =~= s@);
    chars
}

/// The string made of `chars[from..to]`.
pub fn text_between(chars: &Vec<char>, from: usize, to: usize) -> (text: String)
    requires
        from <= to <= chars@.len(),
    ensures
        text@ == chars@.subrange(from as int, to as int),
{
    let mut text = String::new();
    let mut i: usize = from;
    assert(text@ =~= chars@.subrange(from as int, from as int));
    while i < to
        invariant
            from <= i <= to <= chars@.len(),
            text@ == chars@.subrange(from as int, i as int),
        decreases to - i,
    {
        text.push(chars[i]);
        i = i + 1;
        assert(chars@.subrange(from as int, i as int) =~= chars@.subrange(
            from as int,
            i - 1,
        ).push(chars@[i - 1]));
    }
    text
}

/// The string made of all of `chars`.
pub fn text_from(chars: &Vec<char>) -> (text: String)
    ensures
        text@ == chars@,
{
    let text = text_between(chars, 0, chars.len());
    assert(chars@.subrange(0, chars@.len() as int) =~= chars@);
    text
}

/// Whether two texts hold the same characters.
pub fn same_text(a: &str, b: &str) -> (same: bool)
    ensures
        same == (a@ == b@),
{
    let left = chars_of(a);
    let right = chars_of(b);
    same_chars(&left, &right)
}

/// Whether two character vectors hold the same characters.
pub fn same_chars(left: &Vec<char>, right: &Vec<char>) -> (same: bool)
    ensures
        same == (left@ == right@),
{
    if left.len() != right.len() {
        return false;
    }
    let mut i: usize = 0;
    while i < left.len()
        invariant
            i <= left@.len() == right@.len(),
            forall|k: int| 0 <= k < i ==> left@[k] == right@[k],
        decreases left@.len() - i,
    {
        if left[i] != right[i] {
            return false;
        }
        i = i + 1;
    }
    assert(left@ =~= right@);
    true
}

/// `a` followed by `b`.
pub fn joined(a: &str, b: &str) -> (text: String)
    ensures
        text@ == a@ + b@,
{
    let mut text = a.to_owned();
    text.append(b);
    text
}

/// `items` with `separator` between neighbours.
pub open spec fn separated(items: Seq<Seq<char>>, separator: Seq<char>) -> Seq<char>
    decreases items.len(),
{
    if items.len() == 0 {
        Seq::empty()
    } else if items.len() == 1 {
        items[0]
    } else {
        separated(items.drop_last(), separator) + separator + items.last()
    }
}

/// Joins `items` with `separator` between neighbours.
pub fn separate(items: &Vec<String>, separator: &str) -> (text: String)
    ensures
        text@ == separated(views(items@), separator@),
{
    let mut text = String::new();
    let mut i: usize = 0;
    assert(text@ =~= Seq::<char>::empty());
    while i < items.len()
        invariant
            i <= items@.len(),
            text@ == separated(views(items@).take(i as int), separator@),
        decreases items@.len() - i,
    {
        if i > 0 {
            text.append(separator);
        }
        text.append(items[i].as_str());
        i = i + 1;
        proof {
            let longer = views(items@).take(i as int);
            assert(longer.drop_last() =~= views(items@).take(i - 1));
            assert(longer.last() == items@[i - 1]@);
            if i == 1 {
                assert(longer =~= seq![items@[0]@]);
                assert(Seq::<char>::empty() + items@[0]@ =~= items@[0]@);
            }
        }
    }
    assert(views(items@).take(items@.len() as int) =~= views(items@));
    text
}

/// Joins fixed labels with `separator` between neighbours.
pub fn separate_labels(items: &Vec<&'static str>, separator: &str) -> (text: String)
    ensures
        text@ == separated(views(items@), separator@),
{
    let mut owned: Vec<String> = Vec::new();
    let mut i: usize = 0;
    while i < items.len()
        invariant
            i <= items@.len(),
            owned@.len() == i,
            forall|k: int| 0 <= k < i ==> (#[trigger] owned@[k])@ == items@[k]@,
        decreases items@.len() - i,
    {
        owned.push(items[i].to_owned());
        i = i + 1;
    }
    assert(views(owned@) =~= views(items@));
    separate(&owned, separator)
}

/// Bytes that `c` takes in UTF-8.
pub open spec fn utf8_size(c: char) -> nat {
    if c as u32 <= 0x7f {
        1
    } else if c as u32 <= 0x7ff {
        2
    } else if c as u32 <= 0xffff {
        3
    } else {
        4
    }
}

/// Bytes that `c` takes in UTF-8.
pub fn utf8_len(c: char) -> (len: usize)
    ensures
        len == utf8_size(c),
        1 <= len <= 4,
{
    let code: u32 = c as u32;
    if code <= 0x7f {
        1
    } else if code <= 0x7ff {
        2
    } else if code <= 0xffff {
        3
    } else {
        4
    }
}

/// Bytes that `text` takes in UTF-8.
pub open spec fn utf8_total(text: Seq<char>) -> nat
    decreases text.len(),
{
    if text.len() == 0 {
        0
    } else {
        utf8_total(text.drop_last()) + utf8_size(text.last())
    }
}

/// Adding one character adds its size.
pub proof fn lemma_utf8_total_push(text: Seq<char>, c: char)
    ensures
        utf8_total(text.push(c)) == utf8_total(text) + utf8_size(c),
{
    assert(text.push(c).drop_last() =~= text);
}

/// The size of a concatenation is the sum of the sizes.
pub proof fn lemma_utf8_total_concat(a: Seq<char>, b: Seq<char>)
    ensures
        utf8_total(a + b) == utf8_total(a) + utf8_total(b),
    decreases b.len(),
{
    if b.len() == 0 {
        assert(a + b =~= a);
    } else {
        assert((a + b).drop_last() =~= a + b.drop_last());
        lemma_utf8_total_concat(a, b.drop_last());
    }
}

/// A longer prefix takes strictly more bytes.
pub proof fn lemma_utf8_total_grows(text: Seq<char>, shorter: int, longer: int)
    requires
        0 <= shorter < longer <= text.len(),
    ensures
        utf8_total(text.take(shorter)) < utf8_total(text.take(longer)),
    decreases longer - shorter,
{
    assert(text.take(longer).drop_last() =~= text.take(longer - 1));
    if shorter < longer - 1 {
        lemma_utf8_total_grows(text, shorter, longer - 1);
    }
}

/// The size in bytes is the length of the UTF-8 encoding.
pub proof fn lemma_utf8_total_is_encoding(text: Seq<char>)
    ensures
        utf8_total(text) == encode_utf8(text).len(),
    decreases text.len(),
{
    if text.len() > 0 {
        let c = text[0];
        let rest = text.drop_first();
        lemma_utf8_total_is_encoding(rest);
        assert(text =~= seq![c] + rest);
        lemma_utf8_total_concat(seq![c], rest);
        assert(seq![c].drop_last() =~= Seq::<char>::empty());
        assert(utf8_total(Seq::<char>::empty()) == 0);
        assert(utf8_total(seq![c]) == utf8_size(c));
        char_is_scalar(c);
        assert(encode_scalar(c as u32).len() == utf8_size(c));
    }
}

/// The length of `text` in bytes.
pub fn byte_len(text: &str) -> (len: usize)
    ensures
        len == utf8_total(text@),
{
    proof {
        lemma_utf8_total_is_encoding(text@);
    }
    text.as_bytes().len()
}

/// Whether `c` is a Unicode white-space character.
pub open spec fn is_space(c: char) -> bool {
    let code = c as u32;
    ||| 0x09 <= code <= 0x0d
    ||| code == 0x20
    ||| code == 0x85
    ||| code == 0xa0
    ||| code == 0x1680
    ||| 0x2000 <= code <= 0x200a
    ||| code == 0x2028
    ||| code == 0x2029
    ||| code == 0x202f
    ||| code == 0x205f
    ||| code == 0x3000
}

/// Whether `c` is a Unicode white-space character.
pub fn is_space_char(c: char) -> (yes: bool)
    ensures
        yes == is_space(c),
{
    let code: u32 = c as u32;
    (0x09 <= code && code <= 0x0d) || code == 0x20 || code == 0x85 || code == 0xa0 || code == 0x1680
        || (0x2000 <= code && code <= 0x200a) || code == 0x2028 || code == 0x2029 || code == 0x202f
        || code == 0x205f || code == 0x3000
}

/// Whether `c` is a control character.
pub open spec fn is_control(c: char) -> bool {
    let code = c as u32;
    code <= 0x1f || 0x7f <= code <= 0x9f
}

/// Whether `c` is a control character.
pub fn is_control_char(c: char) -> (yes: bool)
    ensures
        yes == is_control(c),
{
    let code: u32 = c as u32;
    code <= 0x1f || (0x7f <= code && code <= 0x9f)
}

/// `text` without its leading white space.
pub open spec fn trimmed_start(text: Seq<char>) -> Seq<char>
    decreases text.len(),
{
    if text.len() > 0 && is_space(text[0]) {
        trimmed_start(text.drop_first())
    } else {
        text
    }
}

/// `text` without its trailing white space.
pub open spec fn trimmed_end(text: Seq<char>) -> Seq<char>
    decreases text.len(),
{
    if text.len() > 0 && is_space(text.last()) {
        trimmed_end(text.drop_last())
    } else {
        text
    }
}

/// `text` without white space at either end.
pub open spec fn trimmed(text: Seq<char>) -> Seq<char> {
    trimmed_end(trimmed_start(text))
}

/// Takes the white space off both ends of `chars`.
pub fn trim_chars(chars: &Vec<char>) -> (result: Vec<char>)
    ensures
        result@ == trimmed(chars@),
{
    let mut from: usize = 0;
    assert(chars@.subrange(0, chars@.len() as int) =~= chars@);
    while from < chars.len() && is_space_char(chars[from])
        invariant
            from <= chars@.len(),
            trimmed_start(chars@) == trimmed_start(
                chars@.subrange(from as int, chars@.len() as int),
            ),
        decreases chars@.len() - from,
    {
        proof {
            let rest = chars@.subrange(from as int, chars@.len() as int);
            assert(rest.drop_first() =~= chars@.subrange(from + 1, chars@.len() as int));
        }
        from = from + 1;
    }
    let ghost start = chars@.subrange(from as int, chars@.len() as int);
    assert(trimmed_start(chars@) == start);
    let mut to: usize = chars.len();
    while to > from && is_space_char(chars[to - 1])
        invariant
            from <= to <= chars@.len(),
            trimmed_end(start) == trimmed_end(chars@.subrange(from as int, to as int)),
        decreases to - from,
    {
        proof {
            let rest = chars@.subrange(from as int, to as int);
            assert(rest.drop_last() =~= chars@.subrange(from as int, to - 1));
            assert(rest.last() == chars@[to - 1]);
        }
        to = to - 1;
    }
    let ghost kept = chars@.subrange(from as int, to as int);
    let mut result: Vec<char> = Vec::new();
    let mut i: usize = from;
    assert(result@ =~= kept.take(0));
    while i < to
        invariant
            from <= i <= to <= chars@.len(),
            kept == chars@.subrange(from as int, to as int),
            result@ == kept.take(i - from),
        decreases to - i,
    {
        result.push(chars[i]);
        i = i + 1;
        assert(result@ =~= kept.take(i - from));
    }
    assert(result@ =~= kept);
    result
}

/// The digit `value`, which is below ten.
pub open spec fn digit(value: int) -> char {
    if value == 0 {
        '0'
    } else if value == 1 {
        '1'
    } else if value == 2 {
        '2'
    } else if value == 3 {
        '3'
    } else if value == 4 {
        '4'
    } else if value == 5 {
        '5'
    } else if value == 6 {
        '6'
    } else if value == 7 {
        '7'
    } else if value == 8 {
        '8'
    } else {
        '9'
    }
}

/// The digit `value`.
pub fn digit_char(value: u64) -> (c: char)
    requires
        value < 10,
    ensures
        c == digit(value as int),
{
    match value {
        0 => '0',
        1 => '1',
        2 => '2',
        3 => '3',
        4 => '4',
        5 => '5',
        6 => '6',
        7 => '7',
        8 => '8',
        _ => '9',
    }
}

/// `value` in decimal.
pub open spec fn decimal(value: nat) -> Seq<char>
    decreases value,
{
    if value < 10 {
        seq![digit(value as int)]
    } else {
        decimal(value / 10).push(digit((value % 10) as int))
    }
}

/// Appends `value` in decimal to `text`.
pub fn push_decimal(text: &mut String, value: u64)
    ensures
        final(text)@ == old(text)@ + decimal(value as nat),
    decreases value,
{
    if value >= 10 {
        push_decimal(text, value / 10);
    }
    text.push(digit_char(value % 10));
    assert(text@ =~= old(text)@ + decimal(value as nat));
}

/// `value` in decimal.
pub fn decimal_of(value: u64) -> (text: String)
    ensures
        text@ == decimal(value as nat),
{
    let mut text = String::new();
    push_decimal(&mut text, value);
    assert(text@ =~= decimal(value as nat));
    text
}

/// The value of a decimal digit, or `None` for any other character.
pub open spec fn digit_value(c: char) -> Option<int> {
    let code = c as u32;
    if 0x30 <= code <= 0x39 {
        Some(code - 0x30)
    } else {
        None
    }
}

/// The number that a run of decimal digits stands for, or `None` where some
/// character is no digit.
pub open spec fn digits_value(digits: Seq<char>) -> Option<int>
    decreases digits.len(),
{
    if digits.len() == 0 {
        Some(0)
    } else {
        match (digits_value(digits.drop_last()), digit_value(digits.last())) {
            (Some(before), Some(last)) => Some(before * 10 + last),
            _ => None,
        }
    }
}

/// `text` without one leading plus sign.
pub open spec fn without_plus(text: Seq<char>) -> Seq<char> {
    if text.len() > 0 && text[0] == '+' {
        text.drop_first()
    } else {
        text
    }
}

/// The unsigned 64-bit number that `text` spells: decimal digits, at least one,
/// after an optional plus sign, and no more than the type holds.
pub open spec fn spelled_u64(text: Seq<char>) -> Option<u64> {
    let digits = without_plus(text);
    match digits_value(digits) {
        Some(value) => if digits.len() > 0 && value <= u64::MAX {
            Some(value as u64)
        } else {
            None
        },
        None => None,
    }
}

/// A longer run of digits stands for no smaller number, and stops being a
/// number once it holds something else.
proof fn lemma_digits_value_prefix(digits: Seq<char>, len: int)
    requires
        0 <= len <= digits.len(),
    ensures
        digits_value(digits) is Some ==> digits_value(digits.take(len)) is Some && 0
            <= digits_value(digits.take(len))->0 <= digits_value(digits)->0,
    decreases digits.len() - len,
{
    if len == digits.len() {
        assert(digits.take(len) =~= digits);
        lemma_digits_value_sign(digits);
    } else {
        lemma_digits_value_prefix(digits, len + 1);
        assert(digits.take(len + 1).drop_last() =~= digits.take(len));
        lemma_digits_value_sign(digits.take(len));
    }
}

/// A run of digits never stands for a negative number.
proof fn lemma_digits_value_sign(digits: Seq<char>)
    ensures
        digits_value(digits) is Some ==> digits_value(digits)->0 >= 0,
    decreases digits.len(),
{
    if digits.len() > 0 {
        lemma_digits_value_sign(digits.drop_last());
    }
}

/// Reads the unsigned 64-bit number that `chars` spells.
pub fn parse_u64(chars: &Vec<char>) -> (value: Option<u64>)
    ensures
        value == spelled_u64(chars@),
{
    let start: usize = if chars.len() > 0 && chars[0] == '+' {
        1
    } else {
        0
    };
    let ghost digits = without_plus(chars@);
    assert(digits =~= chars@.subrange(start as int, chars@.len() as int));
    if chars.len() == start {
        return None;
    }
    let mut value: u64 = 0;
    let mut i: usize = start;
    assert(digits.take(0) =~= Seq::<char>::empty());
    while i < chars.len()
        invariant
            start <= i <= chars@.len(),
            start <= 1,
            digits == without_plus(chars@),
            digits.len() == chars@.len() - start,
            digits =~= chars@.subrange(start as int, chars@.len() as int),
            digits_value(digits.take(i - start)) == Some(value as int),
        decreases chars@.len() - i,
    {
        let code: u32 = chars[i] as u32;
        proof {
            let longer = digits.take(i - start + 1);
            assert(longer.drop_last() =~= digits.take(i - start));
            assert(longer.last() == chars@[i as int]);
            lemma_digits_value_prefix(digits, i - start + 1);
        }
        if code < 0x30 || code > 0x39 {
            return None;
        }
        let last: u64 = (code - 0x30) as u64;
        if value > (u64::MAX - last) / 10 {
            return None;
        }
        value = value * 10 + last;
        i = i + 1;
    }
    assert(digits.take(digits.len() as int) =~= digits);
    Some(value)
}

/// Whether `target` starts with `prefix`.
pub fn has_prefix(target: &Vec<char>, prefix: &Vec<char>) -> (yes: bool)
    ensures
        yes == prefix@.is_prefix_of(target@),
{
    if prefix.len() > target.len() {
        return false;
    }
    let mut i: usize = 0;
    while i < prefix.len()
        invariant
            i <= prefix@.len() <= target@.len(),
            forall|k: int| 0 <= k < i ==> prefix@[k] == target@[k],
        decreases prefix@.len() - i,
    {
        if prefix[i] != target[i] {
            assert(prefix@[i as int] != target@.subrange(0, prefix@.len() as int)[i as int]);
            return false;
        }
        i = i + 1;
    }
    assert(prefix@ =~= target@.subrange(0, prefix@.len() as int));
    true
}

} // verus!
