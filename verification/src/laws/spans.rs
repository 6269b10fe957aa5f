//! A span of time is as long as its numbers make it with the units behind them.
use crate::duration::{countable, span_length, unit_length, Duration};
use crate::text::white_space;
use vstd::prelude::*;

verus! {

/// Whether a character is a decimal digit.
pub open spec fn is_digit(c: char) -> bool {
    '0' <= c <= '9'
}

/// A number with decimal digits behind it.
pub open spec fn appended(number: nat, digits: Seq<char>) -> nat
    decreases digits.len(),
{
    if digits.len() == 0 {
        number
    } else {
        (appended(number, digits.drop_last()) * 10 + (digits.last() as nat - '0' as nat)) as nat
    }
}

/// Whether a text is decimal digits.
pub open spec fn only_digits(text: Seq<char>) -> bool {
    forall|i: int| 0 <= i < text.len() ==> is_digit(#[trigger] text[i])
}

/// A power of ten.
pub open spec fn ten_to(exponent: nat) -> nat
    decreases exponent,
{
    if exponent == 0 {
        1
    } else {
        10 * ten_to((exponent - 1) as nat)
    }
}

/// How many nanoseconds the unit with this name has.
pub open spec fn nanoseconds_in(word: Seq<char>) -> Option<nat> {
    if word == "nanos"@ || word == "nsec"@ || word == "ns"@ {
        Some(1)
    } else if word == "usec"@ || word == "us"@ || word == "\u{b5}s"@ {
        Some(1_000)
    } else if word == "millis"@ || word == "msec"@ || word == "ms"@ {
        Some(1_000_000)
    } else if word == "seconds"@ || word == "second"@ || word == "secs"@ || word == "sec"@ || word == "s"@ {
        Some(1_000_000_000)
    } else if word == "minutes"@ || word == "minute"@ || word == "min"@ || word == "mins"@ || word == "m"@ {
        Some(60_000_000_000)
    } else if word == "hours"@ || word == "hour"@ || word == "hr"@ || word == "hrs"@ || word == "h"@ {
        Some(3_600_000_000_000)
    } else if word == "days"@ || word == "day"@ || word == "d"@ {
        Some(86_400_000_000_000)
    } else if word == "weeks"@ || word == "week"@ || word == "wk"@ || word == "wks"@ || word == "w"@ {
        Some(604_800_000_000_000)
    } else if word == "months"@ || word == "month"@ || word == "M"@ {
        Some(2_630_016_000_000_000)
    } else if word == "years"@ || word == "year"@ || word == "yr"@ || word == "yrs"@ || word == "y"@ {
        Some(31_557_600_000_000_000)
    } else {
        None
    }
}

/// Whether what follows a unit is not part of its name.
pub open spec fn ends_a_name(rest: Seq<char>) -> bool {
    rest.len() == 0 || is_digit(rest[0]) || white_space(rest[0])
}

proof fn lemma_append_first(number: nat, digits: Seq<char>)
    requires
        digits.len() > 0,
        only_digits(digits),
    ensures
        appended(number, digits) == appended(
            (number * 10 + (digits[0] as nat - '0' as nat)) as nat,
            digits.skip(1),
        ),
        appended(number, digits) >= number * 10 + (digits[0] as nat - '0' as nat),
    decreases digits.len(),
{
    reveal_with_fuel(appended, 3);
    assert(is_digit(digits[0]));
    if digits.len() == 1 {
        assert(digits.drop_last() =~= Seq::empty());
        assert(digits.skip(1) =~= Seq::empty());
    } else {
        assert forall|i: int| 0 <= i < digits.drop_last().len() implies is_digit(
            #[trigger] digits.drop_last()[i],
        ) by {
            assert(is_digit(digits[i]));
        }
        lemma_append_first(number, digits.drop_last());
        assert(digits.skip(1).drop_last() =~= digits.drop_last().skip(1));
        assert(digits.skip(1).last() == digits.last());
        assert(is_digit(digits[digits.len() - 1]));
    }
}

proof fn lemma_number(digits: Seq<char>, rest: Seq<char>, number: nat)
    requires
        only_digits(digits),
        appended(number, digits) <= u64::MAX,
    ensures
        span_length(digits + rest, number, None) == span_length(
            rest,
            appended(number, digits),
            None,
        ),
    decreases digits.len(),
{
    if digits.len() == 0 {
        assert(digits + rest =~= rest);
    } else {
        lemma_append_first(number, digits);
        assert(is_digit(digits[0]));
        let next = (number * 10 + (digits[0] as nat - '0' as nat)) as nat;
        assert((digits + rest).skip(1) =~= digits.skip(1) + rest);
        assert forall|i: int| 0 <= i < digits.skip(1).len() implies is_digit(
            #[trigger] digits.skip(1)[i],
        ) by {
            assert(is_digit(digits[i + 1]));
        }
        lemma_number(digits.skip(1), rest, next);
    }
}

proof fn lemma_decimals(digits: Seq<char>, rest: Seq<char>, number: nat, part: nat, scale: nat)
    requires
        only_digits(digits),
        scale >= 1,
        scale * ten_to(digits.len()) <= u64::MAX,
    ensures
        span_length(digits + rest, number, Some((part, scale))) == span_length(
            rest,
            number,
            Some((appended(part, digits), (scale * ten_to(digits.len())) as nat)),
        ),
    decreases digits.len(),
{
    if digits.len() == 0 {
        assert(digits + rest =~= rest);
        assert(ten_to(digits.len()) == 1);
        assert(scale * ten_to(digits.len()) == scale) by (nonlinear_arith)
            requires
                ten_to(digits.len()) == 1,
        ;
    } else {
        lemma_append_first(part, digits);
        assert(is_digit(digits[0]));
        let next = (part * 10 + (digits[0] as nat - '0' as nat)) as nat;
        let power = ten_to((digits.len() - 1) as nat);
        lemma_ten((digits.len() - 1) as nat);
        assert(ten_to(digits.len()) == 10 * power);
        assert(digits.skip(1).len() == digits.len() - 1);
        assert(scale * (10 * power) == (scale * 10) * power) by (nonlinear_arith);
        assert(scale * 10 <= (scale * 10) * power) by (nonlinear_arith)
            requires
                power >= 1,
        ;
        assert((digits + rest).skip(1) =~= digits.skip(1) + rest);
        assert forall|i: int| 0 <= i < digits.skip(1).len() implies is_digit(
            #[trigger] digits.skip(1)[i],
        ) by {
            assert(is_digit(digits[i + 1]));
        }
        lemma_decimals(digits.skip(1), rest, number, next, scale * 10);
    }
}

proof fn lemma_ten(exponent: nat)
    ensures
        ten_to(exponent) >= 1,
    decreases exponent,
{
    if exponent > 0 {
        lemma_ten((exponent - 1) as nat);
    }
}

/// Whether a text has no digits, white space or points.
pub open spec fn only_letters(text: Seq<char>) -> bool {
    forall|i: int|
        0 <= i < text.len() ==> !is_digit(#[trigger] text[i]) && !white_space(text[i]) && text[i]
            != '.'
}

proof fn lemma_name(word: Seq<char>, rest: Seq<char>, number: nat, fraction: Option<(nat, nat)>)
    requires
        word.len() > 0,
        only_letters(word),
    ensures
        span_length(word + rest, number, fraction) == (match span_length(rest, 0, None) {
            Some(length) => Some(
                crate::duration::term_length(number, fraction, unit_length(word + rest)) + length,
            ),
            None => None,
        }),
    decreases word.len(),
{
    assert((word + rest)[0] == word[0]);
    assert(!is_digit(word[0]));
    if word.len() == 1 {
        assert((word + rest).skip(1) =~= rest);
    } else {
        assert((word + rest).skip(1) =~= word.skip(1) + rest);
        assert forall|i: int| 0 <= i < word.skip(1).len() implies !is_digit(
            #[trigger] word.skip(1)[i],
        ) && !white_space(word.skip(1)[i]) && word.skip(1)[i] != '.' by {
            assert(!is_digit(word[i + 1]));
        }
        lemma_name(word.skip(1), rest, 0, None);
    }
}

proof fn lemma_unit(word: Seq<char>, rest: Seq<char>)
    requires
        nanoseconds_in(word) is Some,
        ends_a_name(rest),
    ensures
        word.len() > 0,
        only_letters(word),
        unit_length(word + rest) == nanoseconds_in(word)->0,
{
    let whole = word + rest;
    assert(rest.len() > 0 ==> rest[0] != 's' && rest[0] != 'i' && rest[0] != 'o');
    if word == "nanos"@ {
        reveal_strlit("nanos");
        assert(word.len() == 5 && word[0] == 'n' && word[1] == 'a' && word[2] == 'n');
    }
    if word == "nsec"@ {
        reveal_strlit("nsec");
        assert(word.len() == 4 && word[0] == 'n' && word[1] == 's' && word[2] == 'e');
    }
    if word == "ns"@ {
        reveal_strlit("ns");
        assert(word.len() == 2 && word[0] == 'n' && word[1] == 's');
    }
    if word == "usec"@ {
        reveal_strlit("usec");
        assert(word.len() == 4 && word[0] == 'u' && word[1] == 's' && word[2] == 'e');
    }
    if word == "us"@ {
        reveal_strlit("us");
        assert(word.len() == 2 && word[0] == 'u' && word[1] == 's');
    }
    if word == "\u{b5}s"@ {
        reveal_strlit("\u{b5}s");
        assert(word.len() == 2 && word[0] == '\u{b5}' && word[1] == 's');
    }
    if word == "millis"@ {
        reveal_strlit("millis");
        assert(word.len() == 6 && word[0] == 'm' && word[1] == 'i' && word[2] == 'l');
    }
    if word == "msec"@ {
        reveal_strlit("msec");
        assert(word.len() == 4 && word[0] == 'm' && word[1] == 's' && word[2] == 'e');
    }
    if word == "ms"@ {
        reveal_strlit("ms");
        assert(word.len() == 2 && word[0] == 'm' && word[1] == 's');
    }
    if word == "seconds"@ {
        reveal_strlit("seconds");
        assert(word.len() == 7 && word[0] == 's' && word[1] == 'e' && word[2] == 'c');
    }
    if word == "second"@ {
        reveal_strlit("second");
        assert(word.len() == 6 && word[0] == 's' && word[1] == 'e' && word[2] == 'c');
    }
    if word == "secs"@ {
        reveal_strlit("secs");
        assert(word.len() == 4 && word[0] == 's' && word[1] == 'e' && word[2] == 'c');
    }
    if word == "sec"@ {
        reveal_strlit("sec");
        assert(word.len() == 3 && word[0] == 's' && word[1] == 'e' && word[2] == 'c');
    }
    if word == "s"@ {
        reveal_strlit("s");
        assert(word.len() == 1 && word[0] == 's');
    }
    if word == "minutes"@ {
        reveal_strlit("minutes");
        assert(word.len() == 7 && word[0] == 'm' && word[1] == 'i' && word[2] == 'n');
    }
    if word == "minute"@ {
        reveal_strlit("minute");
        assert(word.len() == 6 && word[0] == 'm' && word[1] == 'i' && word[2] == 'n');
    }
    if word == "min"@ {
        reveal_strlit("min");
        assert(word.len() == 3 && word[0] == 'm' && word[1] == 'i' && word[2] == 'n');
    }
    if word == "mins"@ {
        reveal_strlit("mins");
        assert(word.len() == 4 && word[0] == 'm' && word[1] == 'i' && word[2] == 'n');
    }
    if word == "m"@ {
        reveal_strlit("m");
        assert(word.len() == 1 && word[0] == 'm');
    }
    if word == "hours"@ {
        reveal_strlit("hours");
        assert(word.len() == 5 && word[0] == 'h' && word[1] == 'o' && word[2] == 'u');
    }
    if word == "hour"@ {
        reveal_strlit("hour");
        assert(word.len() == 4 && word[0] == 'h' && word[1] == 'o' && word[2] == 'u');
    }
    if word == "hr"@ {
        reveal_strlit("hr");
        assert(word.len() == 2 && word[0] == 'h' && word[1] == 'r');
    }
    if word == "hrs"@ {
        reveal_strlit("hrs");
        assert(word.len() == 3 && word[0] == 'h' && word[1] == 'r' && word[2] == 's');
    }
    if word == "h"@ {
        reveal_strlit("h");
        assert(word.len() == 1 && word[0] == 'h');
    }
    if word == "days"@ {
        reveal_strlit("days");
        assert(word.len() == 4 && word[0] == 'd' && word[1] == 'a' && word[2] == 'y');
    }
    if word == "day"@ {
        reveal_strlit("day");
        assert(word.len() == 3 && word[0] == 'd' && word[1] == 'a' && word[2] == 'y');
    }
    if word == "d"@ {
        reveal_strlit("d");
        assert(word.len() == 1 && word[0] == 'd');
    }
    if word == "weeks"@ {
        reveal_strlit("weeks");
        assert(word.len() == 5 && word[0] == 'w' && word[1] == 'e' && word[2] == 'e');
    }
    if word == "week"@ {
        reveal_strlit("week");
        assert(word.len() == 4 && word[0] == 'w' && word[1] == 'e' && word[2] == 'e');
    }
    if word == "wk"@ {
        reveal_strlit("wk");
        assert(word.len() == 2 && word[0] == 'w' && word[1] == 'k');
    }
    if word == "wks"@ {
        reveal_strlit("wks");
        assert(word.len() == 3 && word[0] == 'w' && word[1] == 'k' && word[2] == 's');
    }
    if word == "w"@ {
        reveal_strlit("w");
        assert(word.len() == 1 && word[0] == 'w');
    }
    if word == "months"@ {
        reveal_strlit("months");
        assert(word.len() == 6 && word[0] == 'm' && word[1] == 'o' && word[2] == 'n');
    }
    if word == "month"@ {
        reveal_strlit("month");
        assert(word.len() == 5 && word[0] == 'm' && word[1] == 'o' && word[2] == 'n');
    }
    if word == "M"@ {
        reveal_strlit("M");
        assert(word.len() == 1 && word[0] == 'M');
    }
    if word == "years"@ {
        reveal_strlit("years");
        assert(word.len() == 5 && word[0] == 'y' && word[1] == 'e' && word[2] == 'a');
    }
    if word == "year"@ {
        reveal_strlit("year");
        assert(word.len() == 4 && word[0] == 'y' && word[1] == 'e' && word[2] == 'a');
    }
    if word == "yr"@ {
        reveal_strlit("yr");
        assert(word.len() == 2 && word[0] == 'y' && word[1] == 'r');
    }
    if word == "yrs"@ {
        reveal_strlit("yrs");
        assert(word.len() == 3 && word[0] == 'y' && word[1] == 'r' && word[2] == 's');
    }
    if word == "y"@ {
        reveal_strlit("y");
        assert(word.len() == 1 && word[0] == 'y');
    }
    assert(whole[0] == word[0]);
    assert(word.len() > 1 ==> whole[1] == word[1]);
    assert(word.len() > 2 ==> whole[2] == word[2]);
    assert(word.len() == 1 && rest.len() > 0 ==> whole[1] == rest[0]);
    assert(word.len() == 2 && rest.len() > 0 ==> whole[2] == rest[0]);
}

/// A number with a unit behind it is as many times as long as the unit, and what follows is as long
/// as by itself.
pub proof fn law_number_with_its_unit(digits: Seq<char>, word: Seq<char>, rest: Seq<char>)
    requires
        only_digits(digits),
        appended(0, digits) <= u64::MAX,
        nanoseconds_in(word) is Some,
        ends_a_name(rest),
    ensures
        span_length(digits + word + rest, 0, None) == (match span_length(rest, 0, None) {
            Some(length) => Some(appended(0, digits) * nanoseconds_in(word)->0 + length),
            None => None,
        }),
{
    assert(digits + word + rest =~= digits + (word + rest));
    lemma_number(digits, word + rest, 0);
    lemma_unit(word, rest);
    lemma_name(word, rest, appended(0, digits), None);
}

/// Decimals add their part of the unit.
pub proof fn law_decimals_add_their_part(
    digits: Seq<char>,
    decimals: Seq<char>,
    word: Seq<char>,
    rest: Seq<char>,
)
    requires
        only_digits(digits),
        only_digits(decimals),
        appended(0, digits) <= u64::MAX,
        ten_to(decimals.len()) <= u64::MAX,
        nanoseconds_in(word) is Some,
        ends_a_name(rest),
    ensures
        span_length(digits + seq!['.'] + decimals + word + rest, 0, None) == (match span_length(
            rest,
            0,
            None,
        ) {
            Some(length) => Some(
                appended(0, digits) * nanoseconds_in(word)->0 + appended(0, decimals)
                    * nanoseconds_in(word)->0 / ten_to(decimals.len()) + length,
            ),
            None => None,
        }),
{
    let tail = word + rest;
    let behind = decimals + tail;
    let pointed = seq!['.'] + behind;
    assert(digits + seq!['.'] + decimals + word + rest =~= digits + pointed);
    lemma_number(digits, pointed, 0);
    assert(pointed.skip(1) =~= behind);
    assert(pointed[0] == '.');
    lemma_decimals(decimals, tail, appended(0, digits), 0, 1);
    lemma_unit(word, rest);
    lemma_name(
        word,
        rest,
        appended(0, digits),
        Some((appended(0, decimals), ten_to(decimals.len()))),
    );
}

/// White space between terms has no length.
pub proof fn law_white_space_has_no_length(c: char, rest: Seq<char>)
    requires
        white_space(c),
    ensures
        span_length(seq![c] + rest, 0, None) == span_length(rest, 0, None),
        span_length(Seq::empty(), 0, None) == Some(0nat),
{
    assert((seq![c] + rest).skip(1) =~= rest);
}

/// A span can be counted exactly if it is shorter than the seconds that fit in 64 bits, and it is as
/// long as its seconds and nanoseconds.
pub proof fn law_spans_that_can_be_counted(text: Seq<char>, duration: Duration)
    ensures
        countable(text) <==> (span_length(text, 0, None) matches Some(length) && length
            < 18_446_744_073_709_551_616 * 1_000_000_000),
        duration.length() == duration.secs * 1_000_000_000 + duration.nanos,
{
}

} // verus!
