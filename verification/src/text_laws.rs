//! What holds of texts that are trimmed, cut, joined and counted.
use crate::text::{decimal, joined, optional, trim_end, trim_start, trimmed, white_space, without};
use vstd::prelude::*;

verus! {

/// The number that decimal digits stand for.
pub open spec fn value_of(digits: Seq<char>) -> int
    decreases digits.len(),
{
    if digits.len() == 0 {
        0
    } else {
        10 * value_of(digits.drop_last()) + (digits.last() as int - '0' as int)
    }
}

/// The notation of a number is made of digits, stands for that number, and
/// starts with a zero for zero alone.
pub proof fn number_is_read_back(number: nat)
    ensures
        value_of(decimal(number)) == number,
        decimal(number).len() > 0,
        forall|i: int| 0 <= i < decimal(number).len() ==> '0' <= #[trigger] decimal(number)[i] <= '9',
        decimal(number)[0] == '0' ==> number == 0 && decimal(number).len() == 1,
    decreases number,
{
    reveal_with_fuel(value_of, 2);
    if number >= 10 {
        let fewer = decimal(number / 10);
        number_is_read_back(number / 10);
        assert(decimal(number).drop_last() =~= fewer);
        assert(decimal(number)[0] == fewer[0]);
    } else {
        assert(decimal(number).drop_last() =~= Seq::empty());
    }
}

/// Numbers that differ are written differently.
pub proof fn numbers_are_told_apart(number: nat, other: nat)
    requires
        number != other,
    ensures
        decimal(number) != decimal(other),
{
    number_is_read_back(number);
    number_is_read_back(other);
}

/// The white space around a text goes, all of it, and nothing else does.
pub proof fn white_space_around_goes(front: Seq<char>, text: Seq<char>, back: Seq<char>)
    requires
        forall|i: int| 0 <= i < front.len() ==> white_space(#[trigger] front[i]),
        forall|i: int| 0 <= i < back.len() ==> white_space(#[trigger] back[i]),
        text.len() > 0 ==> !white_space(text[0]) && !white_space(text.last()),
    ensures
        trimmed(front + text + back) == text,
{
    assert(front + text + back =~= front + (text + back));
    lemma_front_goes(front, text + back);
    if text.len() > 0 {
        assert((text + back)[0] == text[0]);
        lemma_back_goes(text, back);
    } else {
        assert(text + back =~= back + Seq::empty());
        lemma_front_goes(back, Seq::empty());
        assert(trim_start(Seq::<char>::empty()) =~= Seq::empty());
        assert(text =~= Seq::empty());
    }
}

proof fn lemma_front_goes(front: Seq<char>, rest: Seq<char>)
    requires
        forall|i: int| 0 <= i < front.len() ==> white_space(#[trigger] front[i]),
    ensures
        trim_start(front + rest) == trim_start(rest),
    decreases front.len(),
{
    if front.len() == 0 {
        assert(front + rest =~= rest);
    } else {
        assert((front + rest)[0] == front[0]);
        assert((front + rest).skip(1) =~= front.skip(1) + rest);
        lemma_front_goes(front.skip(1), rest);
    }
}

proof fn lemma_back_goes(text: Seq<char>, back: Seq<char>)
    requires
        forall|i: int| 0 <= i < back.len() ==> white_space(#[trigger] back[i]),
    ensures
        trim_end(text + back) == trim_end(text),
    decreases back.len(),
{
    if back.len() == 0 {
        assert(text + back =~= text);
    } else {
        assert((text + back).last() == back.last());
        assert((text + back).drop_last() =~= text + back.drop_last());
        lemma_back_goes(text, back.drop_last());
    }
}

/// What stands before the first occurrence of a pattern is kept, the
/// occurrence goes, and behind it the search goes on.
pub proof fn first_occurrence_goes(text: Seq<char>, pattern: Seq<char>, at: int)
    requires
        pattern.len() > 0,
        0 <= at <= text.len(),
        pattern.is_prefix_of(text.skip(at)),
        forall|earlier: int|
            0 <= earlier < at ==> !pattern.is_prefix_of(#[trigger] text.skip(earlier)),
    ensures
        without(text, pattern) == text.take(at) + without(text.skip(at + pattern.len()), pattern),
{
    lemma_kept_up_to(text, pattern, at);
    assert(text.skip(at).skip(pattern.len() as int) =~= text.skip(at + pattern.len()));
}

/// A text in which a pattern does not occur stays as it is.
pub proof fn absent_pattern_changes_nothing(text: Seq<char>, pattern: Seq<char>)
    requires
        pattern.len() > 0,
        forall|i: int| 0 <= i < text.len() ==> !pattern.is_prefix_of(#[trigger] text.skip(i)),
    ensures
        without(text, pattern) == text,
{
    lemma_kept_up_to(text, pattern, text.len() as int);
    assert(text.take(text.len() as int) =~= text);
    assert(text.skip(text.len() as int) =~= Seq::empty());
    assert(text + Seq::<char>::empty() =~= text);
}

proof fn lemma_kept_up_to(text: Seq<char>, pattern: Seq<char>, at: int)
    requires
        pattern.len() > 0,
        0 <= at <= text.len(),
        forall|earlier: int|
            0 <= earlier < at ==> !pattern.is_prefix_of(#[trigger] text.skip(earlier)),
    ensures
        without(text, pattern) == text.take(at) + without(text.skip(at), pattern),
    decreases at,
{
    if at == 0 {
        assert(text.skip(0) =~= text);
        assert(text.take(0) + without(text, pattern) =~= without(text, pattern));
    } else {
        lemma_kept_up_to(text, pattern, at - 1);
        let tail = text.skip(at - 1);
        assert(tail.skip(1) =~= text.skip(at));
        assert(text.take(at - 1) + (seq![tail[0]] + without(text.skip(at), pattern))
            =~= text.take(at) + without(text.skip(at), pattern));
    }
}

/// One text joined is that text, none is the empty text, and some joined with
/// others are both joined with one separator between them.
pub proof fn joining_splits_anywhere(
    parts: Seq<Seq<char>>,
    others: Seq<Seq<char>>,
    part: Seq<char>,
    separator: Seq<char>,
)
    ensures
        joined(Seq::empty(), separator) == Seq::<char>::empty(),
        joined(seq![part], separator) == part,
        parts.len() > 0 && others.len() > 0 ==> joined(parts + others, separator) == joined(
            parts,
            separator,
        ) + separator + joined(others, separator),
    decreases others.len(),
{
    if parts.len() > 0 && others.len() > 0 {
        let whole = parts + others;
        assert(whole.drop_last() =~= parts + others.drop_last());
        assert(whole.last() == others.last());
        if others.len() == 1 {
            assert(whole.drop_last() =~= parts);
        } else {
            joining_splits_anywhere(parts, others.drop_last(), part, separator);
            assert(joined(whole, separator) =~= joined(parts, separator) + separator + joined(
                others,
                separator,
            ));
        }
    }
}

/// A text that may be there is told where it is there, and only there.
pub proof fn optional_text_is_told(text: String)
    ensures
        optional(Some(text)) == Some(text@),
        optional(None) is None,
{
}

} // verus!
