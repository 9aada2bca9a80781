//! Finding out whether a message addresses the bot, and taking the address
//! out of it.
use crate::text::{
    chars_of, lowercase, remove_all, starts_with, text_between, trim, trim_end, trim_start, trimmed,
    white_space, without,
};
use crate::text_laws::first_occurrence_goes;
use vstd::prelude::*;

verus! {

/// A mention of a user.
pub open spec fn mention(id: Seq<char>) -> Seq<char> {
    "<@"@ + id + ">"@
}

/// A mention of a user by nickname.
pub open spec fn nickname_mention(id: Seq<char>) -> Seq<char> {
    "<@!"@ + id + ">"@
}

/// The position of the first length that is long enough, or the number of
/// lengths where none is.
pub open spec fn first_reaching(lengths: Seq<nat>, needed: nat) -> nat
    decreases lengths.len(),
{
    if lengths.len() == 0 || lengths[0] >= needed {
        0
    } else {
        1 + first_reaching(lengths.skip(1), needed)
    }
}

/// How long the lower case of the first characters of a message is, for none
/// of its characters, the first one, the first two, and so on to all of them.
pub open spec fn lower_lengths(content: Seq<char>) -> Seq<nat> {
    Seq::new(content.len() + 1, |count: int| lowercase(content.take(count)).len())
}

/// How many characters at the start of a message stand for a prefix that it
/// starts with, in whatever case: the fewest whose lower case is as long as
/// the prefix's.
pub open spec fn matched(content: Seq<char>, prefix: Seq<char>) -> nat {
    first_reaching(lower_lengths(content), lowercase(prefix).len())
}

/// A message without the characters that stand for its prefix, and without the
/// white space around what is left. A message that does not start with the
/// prefix stays.
///
/// `lower` and `lower_prefix` are the message and the prefix in lower case.
pub open spec fn prefix_cut(
    content: Seq<char>,
    matched: nat,
    lower: Seq<char>,
    lower_prefix: Seq<char>,
) -> Seq<char> {
    if !lower_prefix.is_prefix_of(lower) {
        content
    } else if matched < content.len() {
        trimmed(content.skip(matched as int))
    } else {
        Seq::empty()
    }
}

/// A message without its prefix, in whatever case it is written there.
pub open spec fn prefix_stripped(content: Seq<char>, prefix: Seq<char>) -> Seq<char> {
    prefix_cut(content, matched(content, prefix), lowercase(content), lowercase(prefix))
}

/// A message without the mentions of a user and without the white space
/// around what is left.
pub open spec fn mention_stripped(content: Seq<char>, id: Seq<char>) -> Seq<char> {
    trimmed(without(without(content, mention(id)), nickname_mention(id)))
}

/// Whether a text starts with another one as a word of its own.
pub open spec fn starts_with_word(text: Seq<char>, word: Seq<char>) -> bool {
    word.is_prefix_of(text) && (text.len() == word.len() || white_space(text[word.len() as int]))
}

/// Whether a message starts with a name, in whatever case, as a word of its
/// own.
pub open spec fn starts_with_name(content: Seq<char>, name: Seq<char>) -> bool {
    starts_with_word(lowercase(content), lowercase(name))
}

/// Strips a prefix from a message, in whatever case it is written there.
pub fn strip_prefix(content: &str, prefix: &str) -> (rest: String)
    ensures
        rest@ == prefix_stripped(content@, prefix@),
{
    let lower = content.to_lowercase();
    let lower_prefix = prefix.to_lowercase();
    let lower_prefix_chars = chars_of(lower_prefix.as_str());
    if !starts_with(&chars_of(lower.as_str()), &lower_prefix_chars) {
        return content.to_owned();
    }
    let needed = lower_prefix_chars.len();
    let chars = chars_of(content);
    let ghost all = lower_lengths(content@);
    // The lengths up to the first that is long enough decide.
    let mut lengths: Vec<usize> = Vec::new();
    let mut reached = false;
    while !reached && lengths.len() <= chars.len()
        invariant
            chars@ == content@,
            all == lower_lengths(content@),
            lengths@.len() <= all.len(),
            forall|i: int| 0 <= i < lengths@.len() ==> #[trigger] lengths@[i] == all[i],
            forall|i: int|
                0 <= i < lengths@.len() - 1 ==> #[trigger] lengths@[i] < needed,
            lengths@.len() > 0 ==> reached == (lengths@.last() >= needed),
            reached ==> lengths@.len() > 0,
        decreases chars@.len() + 1 - lengths@.len(),
    {
        let start = text_between(&chars, 0, lengths.len());
        assert(start@ =~= content@.take(lengths@.len() as int));
        let length = chars_of(start.to_lowercase().as_str()).len();
        reached = length >= needed;
        lengths.push(length);
    }
    let count = count_matched(&lengths, needed);
    proof {
        let partial = as_nats(lengths@);
        let position = if reached {
            lengths@.len() - 1
        } else {
            lengths@.len() as int
        };
        assert forall|i: int| 0 <= i < position implies all[i] < needed by {
            assert(lengths@[i] < needed);
        }
        lemma_first_reaching(partial, needed as nat, position);
        lemma_first_reaching(all, needed as nat, position);
    }
    cut_prefix(content, count, lower.as_str(), lower_prefix.as_str())
}

/// Lengths as mathematical values.
pub open spec fn as_nats(lengths: Seq<usize>) -> Seq<nat> {
    Seq::new(lengths.len(), |i: int| lengths[i] as nat)
}

/// The position of the first length that is long enough.
pub fn count_matched(lengths: &Vec<usize>, needed: usize) -> (count: usize)
    ensures
        count == first_reaching(as_nats(lengths@), needed as nat),
{
    let mut count: usize = 0;
    while count < lengths.len() && lengths[count] < needed
        invariant
            count <= lengths@.len(),
            forall|i: int| 0 <= i < count ==> #[trigger] lengths@[i] < needed,
        decreases lengths@.len() - count,
    {
        count = count + 1;
    }
    proof {
        lemma_first_reaching(as_nats(lengths@), needed as nat, count as int);
    }
    count
}

/// Strips a prefix from a message, given both in lower case, and how many
/// characters of the message stand for the prefix.
pub fn cut_prefix(content: &str, matched: usize, lower: &str, lower_prefix: &str) -> (rest: String)
    ensures
        rest@ == prefix_cut(content@, matched as nat, lower@, lower_prefix@),
{
    if starts_with(&chars_of(lower), &chars_of(lower_prefix)) {
        let chars = chars_of(content);
        if matched < chars.len() {
            trim(&chars, matched)
        } else {
            String::new()
        }
    } else {
        content.to_owned()
    }
}

/// Strips the mentions of a user from a message.
pub fn strip_mention(content: &str, bot_id: &str) -> (rest: String)
    ensures
        rest@ == mention_stripped(content@, bot_id@),
{
    proof {
        reveal_strlit("<@");
        reveal_strlit("<@!");
    }
    let plain = "<@".to_owned().concat(bot_id).concat(">");
    let nickname = "<@!".to_owned().concat(bot_id).concat(">");
    let result = remove_all(&chars_of(content), &chars_of(plain.as_str()));
    let result = remove_all(&result, &chars_of(nickname.as_str()));
    assert(result@.skip(0) =~= result@);
    trim(&result, 0)
}

/// Whether a message starts with a name, in whatever case.
pub fn is_named(content: &str, name: &str) -> (answer: bool)
    ensures
        answer == starts_with_name(content@, name@),
{
    let lower = content.to_lowercase();
    let lower_name = name.to_lowercase();
    has_first_word(lower.as_str(), lower_name.as_str())
}

/// Whether a text starts with another one as a word of its own.
pub fn has_first_word(text: &str, word: &str) -> (answer: bool)
    ensures
        answer == starts_with_word(text@, word@),
{
    let chars = chars_of(text);
    let word_chars = chars_of(word);
    starts_with(&chars, &word_chars) && (chars.len() == word_chars.len()
        || chars[word_chars.len()].is_whitespace())
}

/// What is left of a message has no white space around it, and trimming it
/// once more changes nothing.
pub proof fn stripped_text_is_trim(content: Seq<char>, id: Seq<char>)
    ensures
        ({
            let rest = mention_stripped(content, id);
            &&& rest.len() > 0 ==> !white_space(rest[0]) && !white_space(rest.last())
            &&& trimmed(rest) == rest
        }),
{
    lemma_trimmed(without(without(content, mention(id)), nickname_mention(id)));
}

/// Of a message that starts with a prefix just the part goes that stands for
/// it: the fewest characters at its start whose lower case is as long as the
/// prefix's. What is left has no white space around it.
pub proof fn only_matching_part_is_cut(content: Seq<char>, prefix: Seq<char>)
    requires
        lowercase(prefix).is_prefix_of(lowercase(content)),
    ensures
        ({
            let rest = prefix_stripped(content, prefix);
            let count = matched(content, prefix) as int;
            let needed = lowercase(prefix).len();
            &&& count <= content.len()
            &&& lowercase(content.take(count)).len() >= needed
            &&& forall|fewer: int|
                0 <= fewer < count ==> lowercase(#[trigger] content.take(fewer)).len() < needed
            &&& rest == trimmed(content.skip(count))
            &&& rest.len() > 0 ==> !white_space(rest[0]) && !white_space(rest.last())
            &&& trimmed(rest) == rest
        }),
{
    let lengths = lower_lengths(content);
    let needed = lowercase(prefix).len();
    let count = matched(content, prefix) as int;
    lemma_reaching_is_first(lengths, needed);
    assert(content.take(content.len() as int) =~= content);
    assert(lengths[content.len() as int] >= needed);
    assert forall|fewer: int| 0 <= fewer < count implies lowercase(
        #[trigger] content.take(fewer),
    ).len() < needed by {
        assert(lengths[fewer] < needed);
    }
    lemma_trimmed(content.skip(count));
}

/// In which case the prefix is given makes no difference.
pub proof fn prefix_case_makes_no_difference(
    content: Seq<char>,
    prefix: Seq<char>,
    other: Seq<char>,
)
    requires
        lowercase(prefix) == lowercase(other),
    ensures
        prefix_stripped(content, prefix) == prefix_stripped(content, other),
{
}

/// What follows a prefix in a message, in whatever case it is written there,
/// is what is left of the message, without the white space around it.
///
/// That is so where the prefix has the same lower case whatever follows it, and
/// fewer characters at the start of the message have a shorter one.
pub proof fn text_behind_prefix_is_left(prefix: Seq<char>, written: Seq<char>, rest: Seq<char>)
    requires
        lowercase(prefix) == lowercase(written),
        lowercase(written).is_prefix_of(lowercase(written + rest)),
        forall|i: int|
            0 <= i < written.len() ==> lowercase(#[trigger] (written + rest).take(i)).len()
                < lowercase(written).len(),
    ensures
        prefix_stripped(written + rest, prefix) == trimmed(rest),
{
    let content = written + rest;
    let lengths = lower_lengths(content);
    let count = written.len() as int;
    assert forall|i: int| 0 <= i < count implies lengths[i] < lowercase(written).len() by {
        assert(lowercase(content.take(i)).len() < lowercase(written).len());
    }
    assert(content.take(count) =~= written);
    lemma_first_reaching(lengths, lowercase(written).len(), count);
    assert(content.skip(count) =~= rest);
}

/// In which case the name is given, or written in the message, makes no
/// difference to whether the message starts with it.
pub proof fn name_case_makes_no_difference(
    content: Seq<char>,
    other_content: Seq<char>,
    name: Seq<char>,
    other_name: Seq<char>,
)
    requires
        lowercase(content) == lowercase(other_content),
        lowercase(name) == lowercase(other_name),
    ensures
        starts_with_name(content, name) == starts_with_name(other_content, other_name),
{
}

/// A message in which the user is not mentioned is only trimmed.
pub proof fn text_without_mention_stays(content: Seq<char>, id: Seq<char>)
    requires
        forall|i: int|
            0 <= i < content.len() ==> !mention(id).is_prefix_of(#[trigger] content.skip(i))
                && !nickname_mention(id).is_prefix_of(content.skip(i)),
    ensures
        mention_stripped(content, id) == trimmed(content),
{
    reveal_strlit("<@");
    reveal_strlit("<@!");
    lemma_absent(content, mention(id));
    lemma_absent(content, nickname_mention(id));
}

/// A mention in front of a message makes no difference to what is left of it.
pub proof fn leading_mention_is_stripped(rest: Seq<char>, id: Seq<char>)
    ensures
        mention_stripped(mention(id) + rest, id) == mention_stripped(rest, id),
{
    reveal_strlit("<@");
    lemma_leading(mention(id), rest);
}

/// A mention by nickname in front of a message makes no difference to what is
/// left of it, unless a plain mention starts within it: then that one is
/// taken out first.
pub proof fn leading_nickname_mention_is_stripped(rest: Seq<char>, id: Seq<char>)
    requires
        forall|i: int|
            0 < i < nickname_mention(id).len() ==> !mention(id).is_prefix_of(
                #[trigger] (nickname_mention(id) + rest).skip(i),
            ),
    ensures
        mention_stripped(nickname_mention(id) + rest, id) == mention_stripped(rest, id),
{
    let plain = mention(id);
    let nickname = nickname_mention(id);
    lemma_forms_differ(id, rest);
    lemma_kept(nickname, rest, plain, nickname.len() as int);
    assert(nickname.take(nickname.len() as int) =~= nickname);
    assert((nickname + rest).skip(nickname.len() as int) =~= rest);
    reveal_strlit("<@!");
    lemma_leading(nickname, without(rest, plain));
}

/// A position is the first one whose length is long enough where it is long
/// enough and none before it is.
proof fn lemma_first_reaching(lengths: Seq<nat>, needed: nat, position: int)
    requires
        0 <= position <= lengths.len(),
        forall|i: int| 0 <= i < position ==> lengths[i] < needed,
        position < lengths.len() ==> lengths[position] >= needed,
    ensures
        first_reaching(lengths, needed) == position,
    decreases position,
{
    if position > 0 {
        assert(lengths[0] < needed);
        lemma_first_reaching(lengths.skip(1), needed, position - 1);
    }
}

/// No length before the first one that is long enough is.
proof fn lemma_reaching_is_first(lengths: Seq<nat>, needed: nat)
    ensures
        ({
            let position = first_reaching(lengths, needed) as int;
            &&& position <= lengths.len()
            &&& position < lengths.len() ==> lengths[position] >= needed
            &&& forall|i: int| 0 <= i < position ==> #[trigger] lengths[i] < needed
        }),
    decreases lengths.len(),
{
    if lengths.len() > 0 && lengths[0] < needed {
        let rest = lengths.skip(1);
        lemma_reaching_is_first(rest, needed);
        let position = first_reaching(lengths, needed) as int;
        assert forall|i: int| 0 <= i < position implies #[trigger] lengths[i] < needed by {
            if i > 0 {
                assert(rest[i - 1] == lengths[i]);
            }
        }
    }
}

/// Trimming leaves no white space at the start or the end.
proof fn lemma_trimmed(text: Seq<char>)
    ensures
        trimmed(text).len() <= text.len(),
        trimmed(text).len() > 0 ==> !white_space(trimmed(text)[0]) && !white_space(
            trimmed(text).last(),
        ),
        trimmed(trimmed(text)) == trimmed(text),
{
    lemma_trim_start(text);
    lemma_trim_end(trim_start(text));
}

proof fn lemma_trim_start(text: Seq<char>)
    ensures
        trim_start(text).len() <= text.len(),
        trim_start(text).len() > 0 ==> !white_space(trim_start(text)[0]),
    decreases text.len(),
{
    if text.len() > 0 && white_space(text[0]) {
        lemma_trim_start(text.skip(1));
    }
}

proof fn lemma_trim_end(text: Seq<char>)
    ensures
        trim_end(text).len() <= text.len(),
        trim_end(text).len() > 0 ==> !white_space(trim_end(text).last()) && trim_end(text)[0]
            == text[0],
    decreases text.len(),
{
    if text.len() > 0 && white_space(text.last()) {
        lemma_trim_end(text.drop_last());
    }
}

/// Taking out what does not occur changes nothing.
proof fn lemma_absent(text: Seq<char>, pattern: Seq<char>)
    requires
        pattern.len() > 0,
        forall|i: int|
            0 <= i < text.len() ==> !pattern.is_prefix_of(#[trigger] text.skip(i)),
    ensures
        without(text, pattern) == text,
{
    lemma_kept(text, Seq::empty(), pattern, text.len() as int);
}

/// Taking out what stands in front leaves the rest to go through.
proof fn lemma_leading(pattern: Seq<char>, rest: Seq<char>)
    requires
        pattern.len() > 0,
    ensures
        without(pattern + rest, pattern) == without(rest, pattern),
{
    assert((pattern + rest).skip(pattern.len() as int) =~= rest);
}

/// What holds no start of an occurrence is kept.
proof fn lemma_kept(front: Seq<char>, rest: Seq<char>, pattern: Seq<char>, count: int)
    requires
        pattern.len() > 0,
        0 <= count <= front.len(),
        forall|i: int|
            0 <= i < front.len() ==> !pattern.is_prefix_of(#[trigger] (front + rest).skip(i)),
    ensures
        without(front + rest, pattern) == front.take(count) + without(
            (front + rest).skip(count),
            pattern,
        ),
    decreases count,
{
    let whole = front + rest;
    if count == 0 {
        assert(whole.skip(0) =~= whole);
    } else {
        lemma_kept(front, rest, pattern, count - 1);
        let tail = whole.skip(count - 1);
        assert(tail.skip(1) =~= whole.skip(count));
    }
}

/// A plain mention is never what a mention by nickname starts with.
proof fn lemma_forms_differ(id: Seq<char>, rest: Seq<char>)
    ensures
        !mention(id).is_prefix_of(nickname_mention(id) + rest),
{
    reveal_strlit("<@");
    reveal_strlit("<@!");
    reveal_strlit(">");
    let plain = mention(id);
    let whole = nickname_mention(id) + rest;
    if plain.is_prefix_of(whole) {
        lemma_all_marks(id, rest, id.len() as int);
        let end = 2 + id.len() as int;
        assert(plain[end] == '>');
        assert(plain[end] == whole[end]);
        if id.len() > 0 {
            assert(whole[end] == id[id.len() - 1]);
        }
    }
}

/// If it were, the id would be made of exclamation marks.
proof fn lemma_all_marks(id: Seq<char>, rest: Seq<char>, count: int)
    requires
        mention(id).is_prefix_of(nickname_mention(id) + rest),
        0 <= count <= id.len(),
    ensures
        forall|i: int| 0 <= i < count ==> id[i] == '!',
    decreases count,
{
    reveal_strlit("<@");
    reveal_strlit("<@!");
    if count > 0 {
        lemma_all_marks(id, rest, count - 1);
        let plain = mention(id);
        let whole = nickname_mention(id) + rest;
        assert(plain[2 + count - 1] == id[count - 1]);
        assert(plain[2 + count - 1] == whole[2 + count - 1]);
        if count == 1 {
            assert(whole[2] == '!');
        } else {
            assert(whole[2 + count - 1] == id[count - 2]);
        }
    }
}

/// A message starts with a name where, in lower case, the name's characters are
/// the message's first and nothing or white space follows them.
pub proof fn name_is_a_word(content: Seq<char>, name: Seq<char>)
    ensures
        ({
            let lower = lowercase(content);
            let word = lowercase(name);
            starts_with_name(content, name) <==> {
                &&& word.len() <= lower.len()
                &&& forall|i: int| 0 <= i < word.len() ==> #[trigger] word[i] == lower[i]
                &&& lower.len() > word.len() ==> white_space(lower[word.len() as int])
            }
        }),
{
    first_word_is_followed_by_white_space(lowercase(content), lowercase(name));
}

/// A text starts with a word where the word's characters are its first and
/// nothing or white space follows them.
pub proof fn first_word_is_followed_by_white_space(text: Seq<char>, word: Seq<char>)
    ensures
        starts_with_word(text, word) <==> {
            &&& word.len() <= text.len()
            &&& forall|i: int| 0 <= i < word.len() ==> #[trigger] word[i] == text[i]
            &&& text.len() > word.len() ==> white_space(text[word.len() as int])
        },
{
    if word.len() <= text.len() {
        let start = text.subrange(0, word.len() as int);
        if word == start {
            assert forall|i: int| 0 <= i < word.len() implies #[trigger] word[i] == text[i] by {
                assert(start[i] == text[i]);
            }
        } else if forall|i: int| 0 <= i < word.len() ==> #[trigger] word[i] == text[i] {
            assert(word =~= start);
        }
    }
}

/// A message that does not start with a prefix, in whatever case, stays as it
/// is, the white space around it included.
pub proof fn message_without_prefix_stays(content: Seq<char>, prefix: Seq<char>)
    requires
        !lowercase(prefix).is_prefix_of(lowercase(content)),
    ensures
        prefix_stripped(content, prefix) == content,
{
}

/// Of a message that starts with a prefix the fewest characters go whose lower
/// case is as long as the prefix's, and the white space around the rest.
pub proof fn fewest_characters_go(content: Seq<char>, prefix: Seq<char>, count: int)
    requires
        lowercase(prefix).is_prefix_of(lowercase(content)),
        0 <= count <= content.len(),
        lowercase(content.take(count)).len() >= lowercase(prefix).len(),
        forall|fewer: int|
            0 <= fewer < count ==> lowercase(#[trigger] content.take(fewer)).len() < lowercase(
                prefix,
            ).len(),
    ensures
        prefix_stripped(content, prefix) == trimmed(content.skip(count)),
{
    let lengths = lower_lengths(content);
    assert forall|i: int| 0 <= i < count implies lengths[i] < lowercase(prefix).len() by {
        assert(lowercase(content.take(i)).len() < lowercase(prefix).len());
    }
    lemma_first_reaching(lengths, lowercase(prefix).len(), count);
    assert(content.skip(content.len() as int) =~= Seq::empty());
}

/// Of a message whose lower case starts with the prefix's, the characters that
/// are told go, and the white space around the rest; with none left over the
/// rest is empty. Any other message stays.
pub proof fn told_characters_go(
    content: Seq<char>,
    count: nat,
    lower: Seq<char>,
    lower_prefix: Seq<char>,
)
    ensures
        lower_prefix.is_prefix_of(lower) && count <= content.len() ==> prefix_cut(
            content,
            count,
            lower,
            lower_prefix,
        ) == trimmed(content.skip(count as int)),
        lower_prefix.is_prefix_of(lower) && count > content.len() ==> prefix_cut(
            content,
            count,
            lower,
            lower_prefix,
        ).len() == 0,
        !lower_prefix.is_prefix_of(lower) ==> prefix_cut(content, count, lower, lower_prefix)
            == content,
{
    assert(content.skip(content.len() as int) =~= Seq::empty());
}

/// The first length that is long enough is found by its position; where none
/// is, the position is behind the last.
pub proof fn first_long_enough_is_counted(lengths: Seq<usize>, needed: nat)
    ensures
        ({
            let position = first_reaching(as_nats(lengths), needed) as int;
            &&& position <= lengths.len()
            &&& position < lengths.len() ==> lengths[position] >= needed
            &&& forall|i: int| 0 <= i < position ==> #[trigger] lengths[i] < needed
        }),
{
    lemma_reaching_is_first(as_nats(lengths), needed);
    let position = first_reaching(as_nats(lengths), needed) as int;
    assert forall|i: int| 0 <= i < position implies #[trigger] lengths[i] < needed by {
        assert(as_nats(lengths)[i] < needed);
    }
}

/// Both forms of a mention go, the plain one first, and then the white space
/// around what is left.
pub proof fn both_forms_go(content: Seq<char>, id: Seq<char>)
    ensures
        mention_stripped(content, id) == trimmed(
            without(without(content, "<@"@ + id + ">"@), "<@!"@ + id + ">"@),
        ),
{
}

/// A message that is a plain mention and text without mentions is left with
/// that text, without the white space around it.
pub proof fn text_behind_mention_is_left(rest: Seq<char>, id: Seq<char>)
    requires
        forall|i: int|
            0 <= i < rest.len() ==> !("<@"@ + id + ">"@).is_prefix_of(#[trigger] rest.skip(i))
                && !("<@!"@ + id + ">"@).is_prefix_of(rest.skip(i)),
    ensures
        mention_stripped("<@"@ + id + ">"@ + rest, id) == trimmed(rest),
{
    leading_mention_is_stripped(rest, id);
    text_without_mention_stays(rest, id);
}

/// The first mention in a message goes from wherever it stands: what is before
/// it and what is behind it, cleared of its mentions, close up.
pub proof fn first_mention_goes(front: Seq<char>, rest: Seq<char>, id: Seq<char>)
    requires
        forall|i: int|
            0 <= i < front.len() ==> !("<@"@ + id + ">"@).is_prefix_of(
                #[trigger] (front + ("<@"@ + id + ">"@) + rest).skip(i),
            ),
    ensures
        mention_stripped(front + ("<@"@ + id + ">"@) + rest, id) == trimmed(
            without(front + without(rest, "<@"@ + id + ">"@), "<@!"@ + id + ">"@),
        ),
{
    reveal_strlit("<@");
    let plain = "<@"@ + id + ">"@;
    let whole = front + plain + rest;
    let at = front.len() as int;
    assert(whole.skip(at) =~= plain + rest);
    assert(whole.take(at) =~= front);
    assert(whole.skip(at + plain.len()) =~= rest);
    assert(plain =~= (plain + rest).subrange(0, plain.len() as int));
    first_occurrence_goes(whole, plain, at);
}

} // verus!
