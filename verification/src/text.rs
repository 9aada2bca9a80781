//! Text as sequences of characters: reading, writing, trimming, comparing
//! and cutting it.
use vstd::prelude::*;
use vstd::utf8::*;

verus! {

/// Whether a character has the Unicode property `White_Space`: the characters
/// that the Unicode character database lists for it.
pub open spec fn white_space(c: char) -> bool {
    ||| '\u{9}' <= c <= '\u{d}'
    ||| c == '\u{20}'
    ||| c == '\u{85}'
    ||| c == '\u{a0}'
    ||| c == '\u{1680}'
    ||| '\u{2000}' <= c <= '\u{200a}'
    ||| '\u{2028}' <= c <= '\u{2029}'
    ||| c == '\u{202f}'
    ||| c == '\u{205f}'
    ||| c == '\u{3000}'
}

/// A text in lower case, by the Unicode rules.
pub uninterp spec fn lowercase(text: Seq<char>) -> Seq<char>;

/// `char::is_whitespace`: whether the character has the property
/// `White_Space`.
pub assume_specification[ char::is_whitespace ](c: char) -> (answer: bool)
    ensures
        answer == white_space(c),
;

/// `str::to_lowercase`: the text in lower case. It depends on the text alone.
pub assume_specification[ str::to_lowercase ](text: &str) -> (lower: String)
    ensures
        lower@ == lowercase(text@),
;

/// `String::push`: the character is added at the end.
pub assume_specification[ String::push ](text: &mut String, c: char)
    ensures
        final(text)@ == old(text)@.push(c),
;

/// The character of a decimal digit.
pub open spec fn digit(value: nat) -> char {
    (48 + value) as char
}

/// The decimal notation of a number, without leading zeros.
pub open spec fn decimal(number: nat) -> Seq<char>
    decreases number,
{
    if number < 10 {
        seq![digit(number)]
    } else {
        decimal(number / 10).push(digit(number % 10))
    }
}

/// A text without the white space that it starts with.
pub open spec fn trim_start(text: Seq<char>) -> Seq<char>
    decreases text.len(),
{
    if text.len() > 0 && white_space(text[0]) {
        trim_start(text.skip(1))
    } else {
        text
    }
}

/// A text without the white space that it ends with.
pub open spec fn trim_end(text: Seq<char>) -> Seq<char>
    decreases text.len(),
{
    if text.len() > 0 && white_space(text.last()) {
        trim_end(text.drop_last())
    } else {
        text
    }
}

/// A text without the white space around it.
pub open spec fn trimmed(text: Seq<char>) -> Seq<char> {
    trim_end(trim_start(text))
}

/// A text without the occurrences of `pattern`, found from left to right and
/// not overlapping.
pub open spec fn without(text: Seq<char>, pattern: Seq<char>) -> Seq<char>
    decreases text.len(),
{
    if text.len() == 0 || pattern.len() == 0 {
        text
    } else if pattern.is_prefix_of(text) {
        without(text.skip(pattern.len() as int), pattern)
    } else {
        seq![text[0]] + without(text.skip(1), pattern)
    }
}

/// The text that may be there.
pub open spec fn optional(text: Option<String>) -> Option<Seq<char>> {
    match text {
        Some(inner) => Some(inner@),
        None => None,
    }
}

/// The texts one after the other, with `separator` between them.
pub open spec fn joined(parts: Seq<Seq<char>>, separator: Seq<char>) -> Seq<char>
    decreases parts.len(),
{
    if parts.len() == 0 {
        Seq::empty()
    } else if parts.len() == 1 {
        parts[0]
    } else {
        joined(parts.drop_last(), separator) + separator + parts.last()
    }
}

/// Whether two texts are the same.
pub(crate) fn same_text(left: &str, right: &str) -> (answer: bool)
    ensures
        answer == (left@ == right@),
{
    let left_bytes = left.as_bytes();
    let right_bytes = right.as_bytes();
    proof {
        encode_utf8_decode_utf8(left@);
        encode_utf8_decode_utf8(right@);
    }
    if left_bytes.len() != right_bytes.len() {
        return false;
    }
    let mut i: usize = 0;
    while i < left_bytes.len()
        invariant
            i <= left_bytes@.len() == right_bytes@.len(),
            left_bytes@ == encode_utf8(left@),
            right_bytes@ == encode_utf8(right@),
            forall|j: int| 0 <= j < i ==> left_bytes@[j] == right_bytes@[j],
        decreases left_bytes@.len() - i,
    {
        if left_bytes[i] != right_bytes[i] {
            return false;
        }
        i = i + 1;
    }
    assert(left_bytes@ =~= right_bytes@);
    true
}

/// The characters of a text.
pub(crate) fn chars_of(text: &str) -> (chars: Vec<char>)
    ensures
        chars@ == text@,
{
    let mut chars: Vec<char> = Vec::new();
    for c in it: text.chars()
        invariant
            it.seq() == text@,
            chars@ == text@.take(it.index() as int),
    {
        chars.push(c);
    }
    chars
}

/// The text of the characters from `start` up to `end`.
pub(crate) fn text_between(chars: &Vec<char>, start: usize, end: usize) -> (text: String)
    requires
        start <= end <= chars@.len(),
    ensures
        text@ == chars@.subrange(start as int, end as int),
{
    let mut text = String::new();
    let mut i: usize = start;
    while i < end
        invariant
            start <= i <= end <= chars@.len(),
            text@ == chars@.subrange(start as int, i as int),
        decreases end - i,
    {
        text.push(chars[i]);
        i = i + 1;
    }
    text
}

/// The decimal notation of a number.
pub(crate) fn decimal_text(number: u64) -> (text: String)
    ensures
        text@ == decimal(number as nat),
    decreases number,
{
    let last: u8 = (number % 10) as u8;
    let mut text = if number < 10 {
        String::new()
    } else {
        decimal_text(number / 10)
    };
    text.push((48 + last) as char);
    text
}

/// Whether `text` starts with `prefix`.
pub(crate) fn starts_with(text: &Vec<char>, prefix: &Vec<char>) -> (answer: bool)
    ensures
        answer == prefix@.is_prefix_of(text@),
{
    if prefix.len() > text.len() {
        return false;
    }
    occurs_at(text, 0, prefix)
}

/// Whether `pattern` occurs in `text` at the position `start`.
fn occurs_at(text: &Vec<char>, start: usize, pattern: &Vec<char>) -> (answer: bool)
    requires
        start <= text@.len(),
    ensures
        answer == pattern@.is_prefix_of(text@.skip(start as int)),
{
    if pattern.len() > text.len() - start {
        return false;
    }
    let mut i: usize = 0;
    while i < pattern.len()
        invariant
            i <= pattern.len(),
            start + pattern.len() <= text.len(),
            forall|j: int| 0 <= j < i ==> pattern@[j] == text@[start + j],
        decreases pattern@.len() - i,
    {
        if pattern[i] != text[start + i] {
            return false;
        }
        i = i + 1;
    }
    true
}

/// A text without the white space around it.
pub(crate) fn trim(chars: &Vec<char>, from: usize) -> (text: String)
    requires
        from <= chars@.len(),
    ensures
        text@ == trimmed(chars@.skip(from as int)),
{
    let mut start: usize = from;
    while start < chars.len() && chars[start].is_whitespace()
        invariant
            from <= start <= chars@.len(),
            trim_start(chars@.skip(from as int)) == trim_start(chars@.skip(start as int)),
        decreases chars@.len() - start,
    {
        assert(chars@.skip(start as int).skip(1) =~= chars@.skip(start + 1));
        start = start + 1;
    }
    let ghost rest = chars@.skip(start as int);
    let mut end: usize = chars.len();
    while end > start && chars[end - 1].is_whitespace()
        invariant
            start <= end <= chars@.len(),
            trim_end(rest) == trim_end(chars@.subrange(start as int, end as int)),
        decreases end,
    {
        assert(chars@.subrange(start as int, end as int).drop_last() =~= chars@.subrange(
            start as int,
            end - 1,
        ));
        end = end - 1;
    }
    text_between(chars, start, end)
}

/// A text without the occurrences of `pattern`.
pub(crate) fn remove_all(text: &Vec<char>, pattern: &Vec<char>) -> (rest: Vec<char>)
    requires
        pattern@.len() > 0,
    ensures
        rest@ == without(text@, pattern@),
{
    let mut rest: Vec<char> = Vec::new();
    let mut i: usize = 0;
    assert(text@.skip(0) =~= text@);
    while i < text.len()
        invariant
            i <= text@.len(),
            pattern@.len() > 0,
            without(text@, pattern@) == rest@ + without(text@.skip(i as int), pattern@),
        decreases text@.len() - i,
    {
        if occurs_at(text, i, pattern) {
            assert(text@.skip(i as int).skip(pattern@.len() as int) =~= text@.skip(
                i + pattern@.len(),
            ));
            i = i + pattern.len();
        } else {
            assert(text@.skip(i as int).skip(1) =~= text@.skip(i + 1));
            rest.push(text[i]);
            i = i + 1;
        }
    }
    rest
}

} // verus!
