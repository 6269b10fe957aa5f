//! Text helpers: trimming, splitting and quoting.
//!
//! Specifications speak of a text as the sequence of its characters.
use vstd::prelude::*;

verus! {

/// Whether `c` has the Unicode property `White_Space`.
pub open spec fn white_space(c: char) -> bool {
    let code = c as u32;
    ||| 0x9 <= code <= 0xd
    ||| code == 0x20
    ||| code == 0x85
    ||| code == 0xa0
    ||| code == 0x1680
    ||| 0x2000 <= code <= 0x200a
    ||| code == 0x2028
    ||| code == 0x2029
    ||| code == 0x202f
    ||| code == 0x205f
    ||| code == 0x3000
}

/// The quoted form of a text, with its special characters escaped.
pub uninterp spec fn quoted(text: Seq<char>) -> Seq<char>;

/// Whether a character is white space.
pub fn is_white_space(c: char) -> (answer: bool)
    ensures
        answer == white_space(c),
{
    let code: u32 = c as u32;
    (0x9 <= code && code <= 0xd) || code == 0x20 || code == 0x85 || code == 0xa0 || code == 0x1680
        || (0x2000 <= code && code <= 0x200a) || code == 0x2028 || code == 0x2029 || code == 0x202f
        || code == 0x205f || code == 0x3000
}

/// Formats a text with `{:?}`.
///
/// Trusted: the outcome depends on the text alone, and a text of printable ASCII characters
/// without quotes or backslashes is only put between double quotes.
#[verifier::external_body]
pub(crate) fn quote(text: &str) -> (outcome: String)
    ensures
        outcome@ == quoted(text@),
        plain(text@) ==> outcome@ == seq!['"'] + text@ + seq!['"'],
{
    format!("{:?}", text)
}

/// Whether quoting leaves every character of the text as it is.
pub open spec fn plain(text: Seq<char>) -> bool {
    forall|i: int|
        0 <= i < text.len() ==> 32 <= #[trigger] text[i] as u32 <= 126 && text[i] != '"' && text[i]
            != '\\'
}

/// The text without the white space it starts with.
pub open spec fn without_leading_white_space(text: Seq<char>) -> Seq<char>
    decreases text.len(),
{
    if text.len() > 0 && white_space(text.first()) {
        without_leading_white_space(text.drop_first())
    } else {
        text
    }
}

/// The text without the white space it ends with.
pub open spec fn without_trailing_white_space(text: Seq<char>) -> Seq<char>
    decreases text.len(),
{
    if text.len() > 0 && white_space(text.last()) {
        without_trailing_white_space(text.drop_last())
    } else {
        text
    }
}

/// The text without the white space around it.
pub open spec fn trimmed(text: Seq<char>) -> Seq<char> {
    without_trailing_white_space(without_leading_white_space(text))
}

/// A text that neither starts nor ends with white space is left as it is.
pub proof fn lemma_trimmed_fixed(text: Seq<char>)
    requires
        text.len() > 0 ==> !white_space(text.first()) && !white_space(text.last()),
    ensures
        trimmed(text) == text,
{
}

/// Where leading white space ends.
proof fn lemma_leading(text: Seq<char>)
    ensures
        without_leading_white_space(text).len() <= text.len(),
        without_leading_white_space(text).len() > 0 ==> !white_space(
            without_leading_white_space(text).first(),
        ),
        without_leading_white_space(text) == text.skip(
            text.len() - without_leading_white_space(text).len(),
        ),
    decreases text.len(),
{
    if text.len() > 0 && white_space(text.first()) {
        lemma_leading(text.drop_first());
        let kept = without_leading_white_space(text);
        assert(text.drop_first().skip(text.len() - 1 - kept.len()) =~= text.skip(
            text.len() - kept.len(),
        ));
    } else {
        assert(text.skip(0) =~= text);
    }
}

/// Where trailing white space begins.
proof fn lemma_trailing(text: Seq<char>)
    ensures
        without_trailing_white_space(text).len() <= text.len(),
        without_trailing_white_space(text).len() > 0 ==> !white_space(
            without_trailing_white_space(text).last(),
        ),
        without_trailing_white_space(text) == text.take(
            without_trailing_white_space(text).len() as int,
        ),
    decreases text.len(),
{
    if text.len() > 0 && white_space(text.last()) {
        lemma_trailing(text.drop_last());
        let kept = without_trailing_white_space(text);
        assert(text.drop_last().take(kept.len() as int) =~= text.take(kept.len() as int));
    } else {
        assert(text.take(text.len() as int) =~= text);
    }
}

/// A trimmed text neither starts nor ends with white space, and trimming it again changes nothing.
pub proof fn lemma_trimmed(text: Seq<char>)
    ensures
        trimmed(text).len() > 0 ==> !white_space(trimmed(text).first()) && !white_space(
            trimmed(text).last(),
        ),
        trimmed(trimmed(text)) == trimmed(text),
{
    let body = without_leading_white_space(text);
    lemma_leading(text);
    lemma_trailing(body);
    lemma_trimmed_fixed(trimmed(text));
}

/// Trimming adds no character.
pub proof fn lemma_trimmed_adds_nothing(text: Seq<char>, c: char)
    requires
        !text.contains(c),
    ensures
        !trimmed(text).contains(c),
{
    lemma_leading_adds_nothing(text, c);
    lemma_trailing_adds_nothing(without_leading_white_space(text), c);
}

proof fn lemma_leading_adds_nothing(text: Seq<char>, c: char)
    requires
        !text.contains(c),
    ensures
        !without_leading_white_space(text).contains(c),
    decreases text.len(),
{
    if text.len() > 0 && white_space(text.first()) {
        let rest = text.drop_first();
        assert forall|i: int| 0 <= i < rest.len() implies rest[i] != c by {
            assert(text.contains(text[i + 1]));
        }
        lemma_leading_adds_nothing(rest, c);
    }
}

proof fn lemma_trailing_adds_nothing(text: Seq<char>, c: char)
    requires
        !text.contains(c),
    ensures
        !without_trailing_white_space(text).contains(c),
    decreases text.len(),
{
    if text.len() > 0 && white_space(text.last()) {
        let rest = text.drop_last();
        assert forall|i: int| 0 <= i < rest.len() implies rest[i] != c by {
            assert(text.contains(text[i]));
        }
        lemma_trailing_adds_nothing(rest, c);
    }
}

/// Removes the white space around a text.
pub fn trim(text: &str) -> (kept: &str)
    ensures
        kept@ == trimmed(text@),
{
    let count: usize = text.unicode_len();
    let mut start: usize = 0;
    assert(text@.skip(0) =~= text@);
    while start < count && is_white_space(text.get_char(start))
        invariant
            count == text@.len(),
            start <= count,
            without_leading_white_space(text@) == without_leading_white_space(
                text@.skip(start as int),
            ),
        ensures
            count == text@.len(),
            start <= count,
            without_leading_white_space(text@) == text@.skip(start as int),
        decreases count - start,
    {
        assert(text@.skip(start as int).drop_first() =~= text@.skip(start + 1));
        start = start + 1;
    }
    let ghost body = text@.skip(start as int);
    let mut end: usize = count;
    assert(text@.subrange(start as int, count as int) =~= body);
    while start < end && is_white_space(text.get_char(end - 1))
        invariant
            count == text@.len(),
            start <= end <= count,
            without_trailing_white_space(body) == without_trailing_white_space(
                text@.subrange(start as int, end as int),
            ),
        ensures
            count == text@.len(),
            start <= end <= count,
            without_trailing_white_space(body) == text@.subrange(start as int, end as int),
        decreases end - start,
    {
        assert(text@.subrange(start as int, end as int).drop_last() =~= text@.subrange(
            start as int,
            end - 1,
        ));
        end = end - 1;
    }
    text.substring_char(start, end)
}

/// What stands before and after the first `separator`, where there is one.
pub open spec fn halves(text: Seq<char>, separator: char) -> Option<(Seq<char>, Seq<char>)>
    decreases text.len(),
{
    if text.len() == 0 {
        None
    } else if text.first() == separator {
        Some((Seq::empty(), text.drop_first()))
    } else {
        match halves(text.drop_first(), separator) {
            Some((before, after)) => Some((seq![text.first()] + before, after)),
            None => None,
        }
    }
}

/// A text without the separator has no halves.
pub proof fn lemma_no_halves(text: Seq<char>, separator: char)
    requires
        forall|i: int| 0 <= i < text.len() ==> text[i] != separator,
    ensures
        halves(text, separator) is None,
    decreases text.len(),
{
    if text.len() > 0 {
        lemma_no_halves(text.drop_first(), separator);
    }
}

/// The first separator is where the halves meet.
pub proof fn lemma_halves(before: Seq<char>, after: Seq<char>, separator: char)
    requires
        forall|i: int| 0 <= i < before.len() ==> before[i] != separator,
    ensures
        halves(before + seq![separator] + after, separator) == Some((before, after)),
    decreases before.len(),
{
    let text = before + seq![separator] + after;
    if before.len() == 0 {
        assert(text.first() == separator);
        assert(text.drop_first() =~= after);
        assert(before =~= Seq::empty());
    } else {
        let rest = before.drop_first();
        assert forall|i: int| 0 <= i < rest.len() implies rest[i] != separator by {
            assert(rest[i] == before[i + 1]);
        }
        lemma_halves(rest, after, separator);
        assert(text.first() == before.first());
        assert(text.first() != separator);
        assert(text.drop_first() =~= rest + seq![separator] + after);
        assert(seq![text.first()] + rest =~= before);
    }
}

/// Splits a text at the first `separator`.
pub fn split_once(text: &str, separator: char) -> (parts: Option<(&str, &str)>)
    ensures
        match parts {
            Some((before, after)) => halves(text@, separator) == Some((before@, after@)),
            None => halves(text@, separator) is None,
        },
{
    let count: usize = text.unicode_len();
    let mut at: usize = 0;
    while at < count
        invariant
            at <= count == text@.len(),
            forall|i: int| 0 <= i < at ==> text@[i] != separator,
        decreases count - at,
    {
        if text.get_char(at) == separator {
            let before = text.substring_char(0, at);
            let after = text.substring_char(at + 1, count);
            proof {
                lemma_halves(before@, after@, separator);
                assert(before@ + seq![separator] + after@ =~= text@);
            }
            return Some((before, after));
        }
        at = at + 1;
    }
    proof {
        lemma_no_halves(text@, separator);
    }
    None
}

/// The parts of a text between its separators.
pub open spec fn segments(text: Seq<char>, separator: char) -> Seq<Seq<char>>
    decreases text.len(),
    via segments_decreases
{
    match halves(text, separator) {
        Some((before, after)) => seq![before] + segments(after, separator),
        None => seq![text],
    }
}

#[via_fn]
proof fn segments_decreases(text: Seq<char>, separator: char) {
    lemma_halves_shrink(text, separator);
}

/// A text has at least one part.
pub proof fn lemma_segments_not_empty(text: Seq<char>, separator: char)
    ensures
        segments(text, separator).len() > 0,
{
}

/// The first half does not hold the separator.
pub proof fn lemma_first_half(text: Seq<char>, separator: char)
    ensures
        halves(text, separator) matches Some((before, _)) ==> !before.contains(separator),
    decreases text.len(),
{
    if text.len() > 0 && text.first() != separator {
        lemma_first_half(text.drop_first(), separator);
        if let Some((before, _)) = halves(text.drop_first(), separator) {
            let whole = seq![text.first()] + before;
            assert forall|i: int| 0 <= i < whole.len() implies whole[i] != separator by {
                if i > 0 {
                    assert(before.contains(before[i - 1]));
                }
            }
        }
    }
}

/// The halves and the separator make up the whole text.
pub proof fn lemma_halves_shrink(text: Seq<char>, separator: char)
    ensures
        match halves(text, separator) {
            Some((before, after)) => before.len() + 1 + after.len() == text.len(),
            None => true,
        },
    decreases text.len(),
{
    if text.len() > 0 && text.first() != separator {
        lemma_halves_shrink(text.drop_first(), separator);
    }
}

/// Splits a text at its separators.
pub fn split(text: &str, separator: char) -> (parts: Vec<String>)
    ensures
        parts.deep_view() == segments(text@, separator),
{
    let mut parts: Vec<String> = Vec::new();
    let mut rest: &str = text;
    assert(parts.deep_view() + segments(rest@, separator) =~= segments(text@, separator));
    loop
        invariant
            parts.deep_view() + segments(rest@, separator) == segments(text@, separator),
        decreases rest@.len(),
    {
        proof {
            lemma_halves_shrink(rest@, separator);
        }
        let ghost before = parts.deep_view();
        match split_once(rest, separator) {
            None => {
                parts.push(rest.to_owned());
                assert(parts.deep_view() =~= before.push(rest@));
                assert(before + seq![rest@] =~= before.push(rest@));
                return parts;
            },
            Some((part, more)) => {
                parts.push(part.to_owned());
                assert(parts.deep_view() =~= before.push(part@));
                assert(before.push(part@) + segments(more@, separator) =~= before + (seq![part@]
                    + segments(more@, separator)));
                rest = more;
            },
        }
    }
}

/// Whether two texts are the same.
pub fn same_text(left: &str, right: &str) -> (answer: bool)
    ensures
        answer == (left@ == right@),
{
    left.to_owned() == right.to_owned()
}

/// The text without the dashes it starts with.
pub open spec fn without_leading_dashes(text: Seq<char>) -> Seq<char>
    decreases text.len(),
{
    if text.len() > 0 && text.first() == '-' {
        without_leading_dashes(text.drop_first())
    } else {
        text
    }
}

/// Removes the dashes that a text starts with.
pub fn strip_leading_dashes(text: &str) -> (kept: &str)
    ensures
        kept@ == without_leading_dashes(text@),
{
    let count: usize = text.unicode_len();
    let mut start: usize = 0;
    assert(text@.skip(0) =~= text@);
    while start < count && text.get_char(start) == '-'
        invariant
            count == text@.len(),
            start <= count,
            without_leading_dashes(text@) == without_leading_dashes(text@.skip(start as int)),
        ensures
            count == text@.len(),
            start <= count,
            without_leading_dashes(text@) == text@.skip(start as int),
        decreases count - start,
    {
        assert(text@.skip(start as int).drop_first() =~= text@.skip(start + 1));
        start = start + 1;
    }
    assert(text@.subrange(start as int, count as int) =~= text@.skip(start as int));
    text.substring_char(start, count)
}

} // verus!
