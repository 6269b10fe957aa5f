//! Texts are trimmed, split and read as modes and roots.
use crate::mode::{mode_of, octal_text, FileMode};
use crate::root::{root_of, RootFlaw, RootView};
use crate::scalars::{parsed_byte_size, parsed_url, ByteSize, Url};
use crate::text::{
    halves, is_white_space, lemma_first_half, lemma_halves, lemma_no_halves, same_text, segments,
    split, split_once, strip_leading_dashes, trim, trimmed, without_leading_white_space,
    without_trailing_white_space,
};
use vstd::prelude::*;
use vstd::utf8::encode_utf8;

verus! {

/// Whether a character is white space.
pub open spec fn blank(c: char) -> bool {
    let code = c as u32;
    ||| code == 9 || code == 10 || code == 11 || code == 12 || code == 13 || code == 32
    ||| code == 0x85 || code == 0xa0 || code == 0x1680 || code == 0x202f || code == 0x205f
    ||| code == 0x2028 || code == 0x2029 || code == 0x3000
    ||| 0x2000 <= code <= 0x200a
}

/// Whether this is a text without the white space around it, which ends before `from` and begins at
/// `to`.
pub open spec fn bare(text: Seq<char>, kept: Seq<char>, from: int, to: int) -> bool {
    &&& 0 <= from <= to <= text.len()
    &&& kept == text.subrange(from, to)
    &&& forall|i: int| 0 <= i < from ==> blank(#[trigger] text[i])
    &&& forall|i: int| to <= i < text.len() ==> blank(#[trigger] text[i])
    &&& from < to ==> !blank(text[from]) && !blank(text[to - 1])
}

proof fn lemma_front(text: Seq<char>) -> (from: int)
    ensures
        0 <= from <= text.len(),
        without_leading_white_space(text) == text.skip(from),
        forall|i: int| 0 <= i < from ==> blank(#[trigger] text[i]),
        from < text.len() ==> !blank(text[from]),
    decreases text.len(),
{
    if text.len() > 0 && blank(text.first()) {
        let rest = text.drop_first();
        let from = lemma_front(rest);
        assert(rest.skip(from) =~= text.skip(from + 1));
        assert forall|i: int| 0 <= i < from + 1 implies blank(#[trigger] text[i]) by {
            if i > 0 {
                assert(rest[i - 1] == text[i]);
            }
        }
        assert(from < rest.len() ==> rest[from] == text[from + 1]);
        from + 1
    } else {
        assert(text.skip(0) =~= text);
        0
    }
}

proof fn lemma_back(text: Seq<char>) -> (to: int)
    ensures
        0 <= to <= text.len(),
        without_trailing_white_space(text) == text.take(to),
        forall|i: int| to <= i < text.len() ==> blank(#[trigger] text[i]),
        0 < to ==> !blank(text[to - 1]),
    decreases text.len(),
{
    if text.len() > 0 && blank(text.last()) {
        let rest = text.drop_last();
        let to = lemma_back(rest);
        assert(rest.take(to) =~= text.take(to));
        assert forall|i: int| to <= i < text.len() implies blank(#[trigger] text[i]) by {
            if i < rest.len() {
                assert(rest[i] == text[i]);
            }
        }
        to
    } else {
        assert(text.take(text.len() as int) =~= text);
        text.len() as int
    }
}

/// Trimming takes away the white space at both ends of a text, all of it and nothing else.
pub proof fn law_trimming_takes_white_space_away(text: Seq<char>)
    ensures
        exists|from: int, to: int| bare(text, trimmed(text), from, to),
{
    let from = lemma_front(text);
    let rest = text.skip(from);
    let back = lemma_back(rest);
    let to = from + back;
    assert(trimmed(text) =~= text.subrange(from, to));
    assert forall|i: int| to <= i < text.len() implies blank(#[trigger] text[i]) by {
        assert(rest[i - from] == text[i]);
    }
    if from < to {
        assert(rest[back - 1] == text[to - 1]);
    }
    assert(bare(text, trimmed(text), from, to));
}

/// Trimming, splitting and comparing give what the laws on texts say.
pub proof fn law_text_operations(
    text: &str,
    kept: &str,
    c: char,
    answer: bool,
    parts: Option<(&str, &str)>,
    all: Vec<String>,
    other: &str,
    same: bool,
)
    requires
        call_ensures(trim, (text,), kept),
        call_ensures(is_white_space, (c,), answer),
        call_ensures(split_once, (text, c), parts),
        call_ensures(split, (text, c), all),
        call_ensures(same_text, (text, other), same),
    ensures
        kept@ == trimmed(text@),
        answer == blank(c),
        all.deep_view() == segments(text@, c),
        same == (text@ == other@),
        parts is None <==> !text@.contains(c),
        parts matches Some((before, after)) ==> text@ == before@ + seq![c] + after@
            && !before@.contains(c),
{
    lemma_split(text@, c);
    if parts is None && text@.contains(c) {
        lemma_halves_exist(text@, c);
    }
}

proof fn lemma_halves_exist(text: Seq<char>, separator: char)
    requires
        text.contains(separator),
    ensures
        halves(text, separator) is Some,
    decreases text.len(),
{
    if text.first() != separator {
        let at = choose|i: int| 0 <= i < text.len() && text[i] == separator;
        assert(text.drop_first()[at - 1] == separator);
        lemma_halves_exist(text.drop_first(), separator);
    }
}

proof fn lemma_split(text: Seq<char>, separator: char)
    ensures
        halves(text, separator) matches Some((before, after)) ==> text == before + seq![separator]
            + after && !before.contains(separator) && text.contains(separator),
    decreases text.len(),
{
    lemma_first_half(text, separator);
    if text.len() > 0 {
        if text.first() == separator {
            assert(text =~= Seq::empty() + seq![separator] + text.drop_first());
            assert(text.contains(text[0]));
        } else {
            lemma_split(text.drop_first(), separator);
            if let Some((before, after)) = halves(text.drop_first(), separator) {
                let whole = seq![text.first()] + before;
                assert(text =~= seq![text.first()] + text.drop_first());
                assert(text =~= whole + seq![separator] + after);
                assert(text[whole.len() as int] == separator);
            }
        }
    }
}

/// A text with the separator is split there: the part before it, and the parts of what follows. A
/// text without it is one part.
pub proof fn law_parts_stand_between_separators(part: Seq<char>, rest: Seq<char>, separator: char)
    requires
        !part.contains(separator),
    ensures
        segments(part, separator) == seq![part],
        segments(part + seq![separator] + rest, separator) == seq![part] + segments(rest, separator),
{
    assert forall|i: int| 0 <= i < part.len() implies part[i] != separator by {
        assert(part.contains(part[i]));
    }
    lemma_no_halves(part, separator);
    lemma_halves(part, rest, separator);
}

/// The number that octal digits make, from the first to the last.
pub open spec fn octal_worth(number: nat, digits: Seq<char>) -> nat
    decreases digits.len(),
{
    if digits.len() == 0 {
        number
    } else {
        octal_worth(
            (number * 8 + (digits[0] as nat - '0' as nat)) as nat,
            digits.drop_first(),
        )
    }
}

proof fn lemma_octal(number: nat, digits: Seq<char>)
    requires
        forall|i: int| 0 <= i < digits.len() ==> '0' <= #[trigger] digits[i] <= '7',
    ensures
        digits.len() > 0 ==> octal_worth(number, digits) == octal_worth(number, digits.drop_last())
            * 8 + (digits.last() as nat - '0' as nat),
    decreases digits.len(),
{
    reveal_with_fuel(octal_worth, 3);
    if digits.len() == 1 {
        assert(digits.drop_first() =~= Seq::empty());
        assert(digits.drop_last() =~= Seq::empty());
        assert('0' <= digits[0] <= '7');
    } else if digits.len() > 1 {
        let next = (number * 8 + (digits[0] as nat - '0' as nat)) as nat;
        assert forall|i: int| 0 <= i < digits.drop_first().len() implies '0'
            <= #[trigger] digits.drop_first()[i] <= '7' by {
            assert('0' <= digits[i + 1] <= '7');
        }
        lemma_octal(next, digits.drop_first());
        assert(digits.drop_first().drop_last() =~= digits.drop_last().drop_first());
        assert(digits.drop_first().last() == digits.last());
        assert(digits.drop_last()[0] == digits[0]);
    }
}

proof fn lemma_octal_number(digits: Seq<char>)
    requires
        forall|i: int| 0 <= i < digits.len() ==> '0' <= #[trigger] digits[i] <= '7',
    ensures
        crate::mode::octal_number(digits) == octal_worth(0, digits),
    decreases digits.len(),
{
    if digits.len() > 0 {
        assert forall|i: int| 0 <= i < digits.drop_last().len() implies '0'
            <= #[trigger] digits.drop_last()[i] <= '7' by {
            assert('0' <= digits[i] <= '7');
        }
        lemma_octal_number(digits.drop_last());
        lemma_octal(0, digits);
        assert('0' <= digits[digits.len() - 1] <= '7');
    }
}

/// Whether a text is octal digits.
pub open spec fn only_octal_digits(text: Seq<char>) -> bool {
    text.len() > 0 && forall|i: int| 0 <= i < text.len() ==> '0' <= #[trigger] text[i] <= '7'
}

/// What is left of a text that a mode is read from: the white space around it is gone, then a
/// leading `0o`, then a leading plus sign.
pub open spec fn mode_digits(text: Seq<char>) -> Seq<char> {
    let body = trimmed(text);
    let number = if body.len() >= 2 && body[0] == '0' && body[1] == 'o' {
        body.skip(2)
    } else {
        body
    };
    if number.len() >= 1 && number[0] == '+' {
        number.skip(1)
    } else {
        number
    }
}

/// A text is a mode exactly if octal digits are left of it whose number fits in 32 bits, and the
/// mode is that number.
pub proof fn law_mode_is_its_octal_number(text: Seq<char>)
    ensures
        mode_of(text) is Some <==> only_octal_digits(mode_digits(text)) && octal_worth(
            0,
            mode_digits(text),
        ) < 0x1_0000_0000,
        mode_of(text) matches Some(mode) ==> mode as nat == octal_worth(0, mode_digits(text)),
{
    let body = trimmed(text);
    assert(body.len() >= 1 ==> body.drop_first() =~= body.skip(1));
    let number = crate::mode::without_prefix(body);
    assert(number.len() >= 1 ==> number.drop_first() =~= number.skip(1));
    if only_octal_digits(mode_digits(text)) {
        lemma_octal_number(mode_digits(text));
    }
}

/// A mode is written with octal digits that make its number, without leading zeros, and a mode is
/// its number.
pub proof fn law_mode_is_written_in_octal(mode: FileMode, text: String, number: u32)
    requires
        call_ensures(FileMode::to_octal, (mode,), text),
        call_ensures(FileMode::value, (mode,), number),
    ensures
        number == mode.0,
        only_octal_digits(text@),
        octal_worth(0, text@) == mode.0 as nat,
        text@.len() > 1 ==> text@[0] != '0',
{
    lemma_written(mode.0 as nat);
    lemma_octal_number(text@);
}

proof fn lemma_written(number: nat)
    ensures
        only_octal_digits(octal_text(number)),
        crate::mode::octal_number(octal_text(number)) == number,
        octal_text(number).len() > 1 ==> octal_text(number)[0] != '0',
        number > 0 ==> octal_text(number)[0] != '0',
    decreases number,
{
    let digit = ('0' as nat + number % 8) as char;
    assert('0' as nat == 48);
    assert('0' <= digit <= '7');
    assert(digit as nat - '0' as nat == number % 8);
    if number < 8 {
        assert(octal_text(number).drop_last() =~= Seq::empty());
        assert(crate::mode::octal_number(Seq::empty()) == 0);
        assert(octal_text(number).last() == digit);
    } else {
        lemma_written(number / 8);
        let front = octal_text(number / 8);
        assert(octal_text(number).drop_last() =~= front);
        assert(octal_text(number)[0] == front[0]);
        assert forall|i: int| 0 <= i < octal_text(number).len() implies '0' <= #[trigger] octal_text(
            number,
        )[i] <= '7' by {
            if i < front.len() {
                assert(octal_text(number)[i] == front[i]);
            }
        }
    }
}

/// A root is an id before the first `=` and a path behind it, each without the white space around
/// it. A text without `=` is no root, nor is one with nothing before it or behind it.
pub proof fn law_root_is_its_id_and_its_path(text: Seq<char>, id: Seq<char>, path: Seq<char>)
    requires
        !id.contains('='),
    ensures
        !text.contains('=') ==> root_of(text) == Err::<RootView, RootFlaw>(
            RootFlaw::MissingSeparator,
        ),
        text == id + seq!['='] + path ==> root_of(text) == (if trimmed(id).len() == 0 {
            Err::<RootView, RootFlaw>(RootFlaw::EmptyId)
        } else if trimmed(path).len() == 0 {
            Err::<RootView, RootFlaw>(RootFlaw::EmptyPath)
        } else {
            Ok::<RootView, RootFlaw>(
                RootView { id: trimmed(id), path: encode_utf8(trimmed(path)) },
            )
        }),
{
    assert forall|i: int| 0 <= i < id.len() implies id[i] != '=' by {
        assert(id.contains(id[i]));
    }
    lemma_halves(id, path, '=');
    lemma_split(text, '=');
}

/// Sizes and URLs are what their texts denote.
pub proof fn law_size_and_url_are_what_their_texts_denote(
    text: &str,
    size: Option<ByteSize>,
    url: Option<Url>,
)
    requires
        call_ensures(ByteSize::parse, (text,), size),
        call_ensures(Url::parse, (text,), url),
    ensures
        match parsed_byte_size(text@) {
            Some(bytes) => size == Some(ByteSize(bytes)),
            None => size is None,
        },
        match parsed_url(text@) {
            Some(normal) => url matches Some(url) && url.text@ == normal,
            None => url is None,
        },
{
}

} // verus!
