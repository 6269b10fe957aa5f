//! Unix file modes, read and written in octal.
use crate::text::{lemma_trimmed, lemma_trimmed_fixed, quote, quoted, trim, trimmed};
use core::cmp::Ordering;
use vstd::prelude::*;
use vstd::std_specs::cmp::{PartialOrdSpec, PartialOrdSpecImpl};

verus! {

/// A Unix file mode.
#[derive(Debug, Clone, Copy, PartialEq, Eq, Ord, Hash, Structural)]
pub struct FileMode(pub u32);

/// A text that is no file mode, without the white space around it.
#[derive(Debug, PartialEq, Eq)]
pub struct InvalidMode {
    pub text: String,
}

/// Whether a text is one or more octal digits.
pub open spec fn octal_digits(text: Seq<char>) -> bool {
    text.len() > 0 && forall|i: int| 0 <= i < text.len() ==> '0' <= #[trigger] text[i] <= '7'
}

/// The number that octal digits denote.
pub open spec fn octal_number(digits: Seq<char>) -> nat
    decreases digits.len(),
{
    if digits.len() == 0 {
        0
    } else {
        octal_number(digits.drop_last()) * 8 + (digits.last() as nat - '0' as nat) as nat
    }
}

/// The text without a plus sign in front.
pub open spec fn unsigned(text: Seq<char>) -> Seq<char> {
    if text.len() > 0 && text[0] == '+' {
        text.drop_first()
    } else {
        text
    }
}

/// The text without the prefix `0o`.
pub open spec fn without_prefix(text: Seq<char>) -> Seq<char> {
    if text.len() >= 2 && text[0] == '0' && text[1] == 'o' {
        text.skip(2)
    } else {
        text
    }
}

/// The mode that a text denotes: an octal number of at most 32 bits, perhaps after `0o` and after
/// a plus sign, with any white space around it.
pub open spec fn mode_of(text: Seq<char>) -> Option<u32> {
    let digits = unsigned(without_prefix(trimmed(text)));
    if octal_digits(digits) && octal_number(digits) <= u32::MAX {
        Some(octal_number(digits) as u32)
    } else {
        None
    }
}

/// The octal digits of a number, without leading zeros.
pub open spec fn octal_text(number: nat) -> Seq<char>
    decreases number,
{
    let digit = ('0' as nat + number % 8) as char;
    if number < 8 {
        seq![digit]
    } else {
        octal_text(number / 8).push(digit)
    }
}

proof fn lemma_prefix_number(digits: Seq<char>, count: int)
    requires
        0 <= count <= digits.len(),
    ensures
        octal_number(digits.take(count)) <= octal_number(digits),
    decreases digits.len() - count,
{
    if count == digits.len() {
        assert(digits.take(count) =~= digits);
    } else {
        lemma_prefix_number(digits, count + 1);
        assert(digits.take(count + 1).drop_last() =~= digits.take(count));
    }
}

/// The digits of a number denote that number, and they hold no white space.
pub proof fn lemma_octal_text(number: nat)
    ensures
        octal_digits(octal_text(number)),
        octal_number(octal_text(number)) == number,
    decreases number,
{
    let digits = octal_text(number);
    let digit = ('0' as nat + number % 8) as char;
    assert('0' <= digit <= '7');
    assert(digit as nat - '0' as nat == number % 8);
    if number < 8 {
        assert(digits.drop_last() =~= Seq::empty());
        assert(octal_number(Seq::<char>::empty()) == 0);
    } else {
        lemma_octal_text(number / 8);
        assert(digits.drop_last() =~= octal_text(number / 8));
        assert forall|i: int| 0 <= i < digits.len() implies '0' <= #[trigger] digits[i] <= '7' by {
            if i < digits.len() - 1 {
                assert(digits[i] == octal_text(number / 8)[i]);
            }
        }
    }
}

/// Every mode is read back from its octal digits.
pub proof fn law_written_mode_is_read_back(mode: FileMode)
    ensures
        mode_of(octal_text(mode.0 as nat)) == Some(mode.0),
{
    let digits = octal_text(mode.0 as nat);
    lemma_octal_text(mode.0 as nat);
    lemma_digits_stand(digits);
}

/// Octal digits mean the same with `0o` in front.
pub proof fn law_prefix_changes_nothing(digits: Seq<char>)
    requires
        octal_digits(digits),
    ensures
        mode_of(seq!['0', 'o'] + digits) == mode_of(digits),
{
    lemma_digits_stand(digits);
    let text = seq!['0', 'o'] + digits;
    assert(text.last() == digits.last());
    lemma_trimmed_fixed(text);
    assert(text.skip(2) =~= digits);
}

/// Octal digits mean the same with a zero in front.
pub proof fn law_leading_zero_changes_nothing(digits: Seq<char>)
    requires
        octal_digits(digits),
    ensures
        mode_of(seq!['0'] + digits) == mode_of(digits),
{
    lemma_digits_stand(digits);
    let text = seq!['0'] + digits;
    assert(octal_digits(text)) by {
        assert forall|i: int| 0 <= i < text.len() implies '0' <= #[trigger] text[i] <= '7' by {
            if i > 0 {
                assert(text[i] == digits[i - 1]);
            }
        }
    }
    lemma_digits_stand(text);
    lemma_leading_zero(digits);
}

/// White space around a mode does not count.
pub proof fn law_white_space_around_a_mode(text: Seq<char>)
    ensures
        mode_of(trimmed(text)) == mode_of(text),
{
    lemma_trimmed(text);
}

proof fn lemma_leading_zero(digits: Seq<char>)
    ensures
        octal_number(seq!['0'] + digits) == octal_number(digits),
    decreases digits.len(),
{
    let text = seq!['0'] + digits;
    if digits.len() == 0 {
        assert(text.drop_last() =~= Seq::empty());
        assert(octal_number(Seq::<char>::empty()) == 0);
    } else {
        lemma_leading_zero(digits.drop_last());
        assert(text.drop_last() =~= seq!['0'] + digits.drop_last());
        assert(text.last() == digits.last());
    }
}

/// Octal digits are read as they stand.
proof fn lemma_digits_stand(digits: Seq<char>)
    requires
        octal_digits(digits),
    ensures
        unsigned(without_prefix(trimmed(digits))) == digits,
{
    assert('0' <= digits[0] <= '7');
    assert('0' <= digits[digits.len() - 1] <= '7');
    lemma_trimmed_fixed(digits);
    if digits.len() >= 2 {
        assert('0' <= digits[1] <= '7');
    }
}

impl InvalidMode {
    /// What is wrong with the text.
    pub fn message(&self) -> (message: String)
        ensures
            message@ == "invalid Unix mode "@ + quoted(self.text@)
                + ": expected octal e.g. \"0644\""@,
    {
        let mut message: String = "invalid Unix mode ".to_owned();
        message.append(quote(self.text.as_str()).as_str());
        message.append(": expected octal e.g. \"0644\"");
        message
    }
}

impl PartialOrd for FileMode {
    fn partial_cmp(&self, other: &FileMode) -> (order: Option<Ordering>) {
        self.0.partial_cmp(&other.0)
    }
}

impl PartialOrdSpecImpl for FileMode {
    open spec fn obeys_partial_cmp_spec() -> bool {
        true
    }

    open spec fn partial_cmp_spec(&self, other: &FileMode) -> Option<Ordering> {
        if self.0 < other.0 {
            Some(Ordering::Less)
        } else if self.0 > other.0 {
            Some(Ordering::Greater)
        } else {
            Some(Ordering::Equal)
        }
    }
}

/// Modes are equal, and in order, as their numbers are.
pub proof fn law_modes_compare_as_numbers(left: FileMode, right: FileMode)
    ensures
        left == right <==> left.0 == right.0,
        PartialOrdSpec::partial_cmp_spec(&left, &right) == Some(Ordering::Less) <==> left.0 < right.0,
        PartialOrdSpec::partial_cmp_spec(&left, &right) == Some(Ordering::Greater) <==> left.0 > right.0,
        PartialOrdSpec::partial_cmp_spec(&left, &right) == Some(Ordering::Equal) <==> left == right,
{
}

impl Default for FileMode {
    fn default() -> (mode: FileMode)
        ensures
            mode == FileMode(0),
    {
        FileMode(0)
    }
}

impl FileMode {
    /// The mode as a number.
    pub fn value(self) -> (number: u32)
        ensures
            number == self.0,
    {
        self.0
    }

    /// The octal digits of the mode.
    pub fn to_octal(self) -> (text: String)
        ensures
            text@ == octal_text(self.0 as nat),
    {
        octal(self.0)
    }
}

impl core::str::FromStr for FileMode {
    type Err = InvalidMode;

    /// Reads a mode from octal text such as `0644`, `644` or `0o644`.
    fn from_str(s: &str) -> (outcome: Result<FileMode, InvalidMode>)
        ensures
            match outcome {
                Ok(mode) => mode_of(s@) == Some(mode.0),
                Err(error) => mode_of(s@) is None && error.text@ == trimmed(s@),
            },
    {
        let body: &str = trim(s);
        let length: usize = body.unicode_len();
        let mut start: usize = 0;
        if length >= 2 && body.get_char(0) == '0' && body.get_char(1) == 'o' {
            start = 2;
        }
        let ghost rest = body@.skip(start as int);
        assert(rest =~= without_prefix(body@));
        if start < length && body.get_char(start) == '+' {
            start = start + 1;
        }
        let ghost digits = body@.skip(start as int);
        assert(digits =~= unsigned(rest));
        if start == length {
            return Err(InvalidMode { text: body.to_owned() });
        }
        let mut number: u32 = 0;
        let mut at: usize = start;
        assert(digits.take(0) =~= Seq::empty());
        while at < length
            invariant
                start <= at <= length == body@.len(),
                body@ == trimmed(s@),
                digits == body@.skip(start as int),
                digits == unsigned(without_prefix(trimmed(s@))),
                number == octal_number(digits.take(at - start)),
                forall|i: int| 0 <= i < at - start ==> '0' <= #[trigger] digits[i] <= '7',
            decreases length - at,
        {
            let c: char = body.get_char(at);
            assert(c == digits[at - start]);
            if c < '0' || '7' < c {
                return Err(InvalidMode { text: body.to_owned() });
            }
            let digit: u32 = c as u32 - '0' as u32;
            proof {
                let longer = digits.take(at - start + 1);
                assert(longer.drop_last() =~= digits.take(at - start));
                assert(longer.last() == c);
                lemma_prefix_number(digits, at - start + 1);
                assert(octal_number(longer) == number * 8 + digit);
            }
            if number > (u32::MAX - digit) / 8 {
                return Err(InvalidMode { text: body.to_owned() });
            }
            number = number * 8 + digit;
            at = at + 1;
        }
        assert(digits.take(length - start) =~= digits);
        Ok(FileMode(number))
    }
}

/// The octal digits of a number.
fn octal(number: u32) -> (text: String)
    ensures
        text@ == octal_text(number as nat),
    decreases number,
{
    if number < 8 {
        let text: String = octal_digit(number).to_owned();
        text
    } else {
        let mut text: String = octal(number / 8);
        text.append(octal_digit(number % 8));
        assert(text@ =~= octal_text(number as nat));
        text
    }
}

fn octal_digit(digit: u32) -> (text: &'static str)
    requires
        digit < 8,
    ensures
        text@ == seq![('0' as nat + digit as nat) as char],
{
    proof {
        reveal_strlit("0");
        reveal_strlit("1");
        reveal_strlit("2");
        reveal_strlit("3");
        reveal_strlit("4");
        reveal_strlit("5");
        reveal_strlit("6");
        reveal_strlit("7");
    }
    match digit {
        0 => "0",
        1 => "1",
        2 => "2",
        3 => "3",
        4 => "4",
        5 => "5",
        6 => "6",
        _ => "7",
    }
}

impl DeepView for FileMode {
    type V = FileMode;

    open spec fn deep_view(&self) -> FileMode {
        *self
    }
}

} // verus!
