//! Spans of time, and how people write them.
use crate::text::{is_white_space, white_space};
use vstd::prelude::*;
use vstd::std_specs::convert::FromSpecImpl;

verus! {

/// `humantime::DurationError`: why a text is no span of time.
#[verifier::external_type_specification]
#[verifier::external_body]
pub struct ExDurationError(humantime::DurationError);

/// A span of time.
#[derive(Debug, Clone, Copy, PartialEq, Eq, PartialOrd, Ord, Hash)]
pub struct Duration {
    pub secs: u64,
    pub nanos: u32,
}

/// A span of time that is written for people, such as `5m` or `1h 30min`.
#[derive(Debug, Clone, Copy, PartialEq, Eq, PartialOrd, Ord, Hash)]
pub struct HumanDuration(pub Duration);

/// A text that is no span of time.
#[derive(Debug, Clone, Copy, PartialEq, Eq)]
pub struct InvalidDuration;

/// How many nanoseconds a second has.
pub const SECOND: u64 = 1_000_000_000;

/// How many nanoseconds the longest unit has: a year.
pub const YEAR: u64 = 31_557_600_000_000_000;

/// How many nanoseconds the seconds that can be counted have, and one more: a span is shorter.
pub const SPAN_LIMIT: u128 = 18_446_744_073_709_551_616_000_000_000;

/// What `humantime::parse_duration` makes of a text: whole seconds and nanoseconds.
pub uninterp spec fn parsed_duration(text: Seq<char>) -> Option<(u64, u32)>;

/// How many nanoseconds the unit has whose name a text begins with. A text that begins with no
/// unit has none. A month has 30.44 days, and a year 365.25.
pub open spec fn unit_length(text: Seq<char>) -> nat {
    if text.len() == 0 {
        0
    } else if text[0] == 'n' {
        1
    } else if text[0] == 'u' || text[0] == '\u{b5}' {
        1_000
    } else if text[0] == 's' {
        SECOND as nat
    } else if text[0] == 'm' && text.len() > 1 && text[1] == 's' {
        1_000_000
    } else if text[0] == 'm' && text.len() > 2 && text[1] == 'i' && text[2] == 'l' {
        1_000_000
    } else if text[0] == 'M' || text[0] == 'm' && text.len() > 1 && text[1] == 'o' {
        2_630_016 * SECOND as nat
    } else if text[0] == 'm' {
        60 * SECOND as nat
    } else if text[0] == 'h' {
        3_600 * SECOND as nat
    } else if text[0] == 'd' {
        86_400 * SECOND as nat
    } else if text[0] == 'w' {
        604_800 * SECOND as nat
    } else if text[0] == 'y' {
        YEAR as nat
    } else {
        0
    }
}

/// How many nanoseconds the numbers of a text make with the units behind them, where `number` is
/// what has been read of a number before it, and `fraction` what has been read behind its decimal
/// point, with the power of ten to divide it by. White space inside a number does not count. A
/// number that is too large, or has too many decimals, makes none.
pub open spec fn span_length(text: Seq<char>, number: nat, fraction: Option<(nat, nat)>) -> Option<
    nat,
>
    decreases text.len(),
{
    if text.len() == 0 {
        Some(0)
    } else if '0' <= text[0] <= '9' {
        let digit = (text[0] as nat - '0' as nat) as nat;
        match fraction {
            None => if number * 10 + digit <= u64::MAX {
                span_length(text.skip(1), number * 10 + digit, None)
            } else {
                None
            },
            Some((part, scale)) => if scale * 10 <= u64::MAX {
                span_length(text.skip(1), number, Some((part * 10 + digit, scale * 10)))
            } else {
                None
            },
        }
    } else if white_space(text[0]) {
        span_length(text.skip(1), number, fraction)
    } else if text[0] == '.' {
        span_length(text.skip(1), number, Some((0, 1)))
    } else {
        match span_length(text.skip(1), 0, None) {
            Some(rest) => Some(term_length(number, fraction, unit_length(text)) + rest),
            None => None,
        }
    }
}

/// How many nanoseconds a number of units makes.
pub open spec fn term_length(number: nat, fraction: Option<(nat, nat)>, unit: nat) -> nat {
    match fraction {
        None => number * unit,
        Some((part, scale)) => number * unit + part * unit / scale,
    }
}

/// Whether the seconds of the span that a text denotes can be counted.
pub open spec fn countable(text: Seq<char>) -> bool {
    span_length(text, 0, None) matches Some(length) && length < SPAN_LIMIT
}

/// The span that a text denotes. More seconds than can be counted make none.
pub open spec fn duration_of(text: Seq<char>) -> Option<Duration> {
    if countable(text) {
        match parsed_duration(text) {
            Some((secs, nanos)) => Some(Duration { secs, nanos }),
            None => None,
        }
    } else {
        None
    }
}

impl Duration {
    /// How many nanoseconds the span has.
    pub open spec fn length(self) -> nat {
        self.secs as nat * SECOND as nat + self.nanos as nat
    }
}

/// Calls `humantime::parse_duration`.
///
/// Trusted: the outcome depends on the text alone. The span is as long as the numbers of the text
/// make it with the units behind them, and its nanoseconds make less than a second.
/// It panics on some texts for spans of more seconds than `u64::MAX`, which `countable` keeps out.
#[verifier::external_body]
fn parse_duration(text: &str) -> (outcome: Result<Duration, humantime::DurationError>)
    requires
        countable(text@),
    ensures
        match outcome {
            Ok(duration) => parsed_duration(text@) == Some((duration.secs, duration.nanos))
                && duration.nanos < SECOND && span_length(text@, 0, None) == Some(
                duration.length(),
            ),
            Err(_) => parsed_duration(text@) is None,
        },
{
    humantime::parse_duration(text).map(
        |span| Duration { secs: span.as_secs(), nanos: span.subsec_nanos() },
    )
}

/// Whether the seconds of the span that a text denotes can be counted.
fn is_countable(text: &str) -> (answer: bool)
    ensures
        answer == countable(text@),
{
    let count: usize = text.unicode_len();
    let limit: u128 = u64::MAX as u128;
    let mut total: u128 = 0;
    let mut number: u128 = 0;
    let mut fraction: Option<(u128, u128)> = None;
    let mut at: usize = 0;
    assert(text@.skip(0) =~= text@);
    while at < count
        invariant
            at <= count == text@.len(),
            limit == u64::MAX,
            total < SPAN_LIMIT,
            number <= limit,
            fraction matches Some((part, scale)) ==> part < scale <= limit,
            span_length(text@, 0, None) == (match span_length(
                text@.skip(at as int),
                number as nat,
                natural(fraction),
            ) {
                Some(rest) => Some((total + rest) as nat),
                None => None,
            }),
        decreases count - at,
    {
        let c: char = text.get_char(at);
        assert(text@.skip(at as int).skip(1) =~= text@.skip(at + 1));
        if '0' <= c && c <= '9' {
            let digit: u128 = c as u128 - '0' as u128;
            match fraction {
                None => {
                    if number * 10 + digit > limit {
                        return false;
                    }
                    number = number * 10 + digit;
                },
                Some((part, scale)) => {
                    if scale * 10 > limit {
                        return false;
                    }
                    fraction = Some((part * 10 + digit, scale * 10));
                },
            }
        } else if is_white_space(c) {
        } else if c == '.' {
            fraction = Some((0, 1));
        } else {
            total = total + measure_term(number, fraction, measure_unit(text, at));
            if total >= SPAN_LIMIT {
                return false;
            }
            number = 0;
            fraction = None;
        }
        at = at + 1;
    }
    true
}

/// What has been read behind a decimal point.
spec fn natural(fraction: Option<(u128, u128)>) -> Option<(nat, nat)> {
    match fraction {
        None => None,
        Some((part, scale)) => Some((part as nat, scale as nat)),
    }
}

fn measure_term(number: u128, fraction: Option<(u128, u128)>, unit: u64) -> (length: u128)
    requires
        number <= u64::MAX,
        fraction matches Some((part, scale)) ==> part < scale <= u64::MAX,
        unit <= YEAR,
    ensures
        length == term_length(number as nat, natural(fraction), unit as nat),
        length <= u64::MAX * YEAR + YEAR,
{
    assert(number * unit <= u64::MAX * YEAR) by (nonlinear_arith)
        requires
            0 <= number <= u64::MAX,
            0 <= unit <= YEAR,
    ;
    let whole: u128 = number * (unit as u128);
    match fraction {
        None => whole,
        Some((part, scale)) => {
            assert(part * unit <= u64::MAX * YEAR) by (nonlinear_arith)
                requires
                    0 <= part <= u64::MAX,
                    0 <= unit <= YEAR,
            ;
            let product: u128 = part * (unit as u128);
            assert(product / scale <= unit) by (nonlinear_arith)
                requires
                    product == part * unit,
                    0 <= part < scale,
                    0 <= unit,
            ;
            whole + product / scale
        },
    }
}

fn measure_unit(text: &str, at: usize) -> (length: u64)
    requires
        at < text@.len(),
    ensures
        length == unit_length(text@.skip(at as int)),
        length <= YEAR,
{
    let count: usize = text.unicode_len();
    let first: char = text.get_char(at);
    if first == 'n' {
        1
    } else if first == 'u' || first == '\u{b5}' {
        1_000
    } else if first == 's' {
        SECOND
    } else if first == 'm' && count - at > 1 && text.get_char(at + 1) == 's' {
        1_000_000
    } else if first == 'm' && count - at > 2 && text.get_char(at + 1) == 'i' && text.get_char(
        at + 2,
    ) == 'l' {
        1_000_000
    } else if first == 'M' || first == 'm' && count - at > 1 && text.get_char(at + 1) == 'o' {
        2_630_016 * SECOND
    } else if first == 'm' {
        60 * SECOND
    } else if first == 'h' {
        3_600 * SECOND
    } else if first == 'd' {
        86_400 * SECOND
    } else if first == 'w' {
        604_800 * SECOND
    } else if first == 'y' {
        YEAR
    } else {
        0
    }
}

impl core::str::FromStr for HumanDuration {
    type Err = InvalidDuration;

    /// Reads a span of time such as `30s`, `5m` or `1h`.
    fn from_str(s: &str) -> (outcome: Result<HumanDuration, InvalidDuration>)
        ensures
            match outcome {
                Ok(duration) => duration_of(s@) == Some(duration.0) && duration.0.nanos < SECOND
                    && span_length(s@, 0, None) == Some(duration.0.length()),
                Err(_) => duration_of(s@) is None,
            },
    {
        if is_countable(s) {
            match parse_duration(s) {
                Ok(duration) => Ok(HumanDuration(duration)),
                Err(_) => Err(InvalidDuration),
            }
        } else {
            Err(InvalidDuration)
        }
    }
}

impl From<Duration> for HumanDuration {
    fn from(duration: Duration) -> (human: HumanDuration) {
        HumanDuration(duration)
    }
}

impl FromSpecImpl<Duration> for HumanDuration {
    open spec fn obeys_from_spec() -> bool {
        true
    }

    open spec fn from_spec(duration: Duration) -> HumanDuration {
        HumanDuration(duration)
    }
}

impl From<HumanDuration> for Duration {
    fn from(human: HumanDuration) -> (duration: Duration) {
        human.0
    }
}

impl FromSpecImpl<HumanDuration> for Duration {
    open spec fn obeys_from_spec() -> bool {
        true
    }

    open spec fn from_spec(human: HumanDuration) -> Duration {
        human.0
    }
}

impl DeepView for Duration {
    type V = Duration;

    open spec fn deep_view(&self) -> Duration {
        *self
    }
}

impl DeepView for HumanDuration {
    type V = HumanDuration;

    open spec fn deep_view(&self) -> HumanDuration {
        *self
    }
}

} // verus!
