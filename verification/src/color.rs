//! Colors, the ways they are written, and how a contrast ratio is graded.
//!
//! A WCAG contrast ratio is a real number, but every threshold that it is held
//! against (3:1, 4.5:1 and 7:1) is a multiple of one half. Grading therefore
//! takes the number of whole halves in the ratio, which decides each of those
//! comparisons exactly.
use vstd::prelude::*;
use vstd::string::StringExecFns;
use vstd::utf8::encode_utf8;

use crate::text::{
    chars_of, part_of, push_decimal, push_digit, takes_bytes, trim, value_of_digit,
};
#[allow(unused_imports)]
use crate::text::{
    decimal, digit, digit_value, law_trimming, lemma_already_trimmed, lemma_digit_is_upper,
    lemma_digit_value, trimmed, upper, upper_case, white_space,
};

verus! {

/// An sRGB color with eight bits for each channel.
#[derive(Debug, Clone, Copy, PartialEq, Eq, Structural)]
pub struct Rgb {
    pub r: u8,
    pub g: u8,
    pub b: u8,
}

/// Why a text is not a hexadecimal color.
#[derive(Debug)]
pub enum HexColorError {
    /// What is left without surrounding whitespace and leading `#` is not six
    /// bytes long. Holds the text as it was given.
    WrongLength { input: String },
    /// It is six bytes long, but they are not three hexadecimal bytes.
    InvalidDigit,
}

/// `s` without its leading `#` characters.
pub open spec fn without_hashes(s: Seq<char>) -> Seq<char>
    decreases s.len(),
{
    if s.len() > 0 && s[0] == '#' {
        without_hashes(s.skip(1))
    } else {
        s
    }
}

/// The part of a text that a hexadecimal color is read from.
pub open spec fn hex_part(input: Seq<char>) -> Seq<char> {
    without_hashes(trimmed(input))
}

/// The byte that two characters write: two hexadecimal digits, or a plus sign
/// and one.
pub open spec fn byte_pair(high: char, low: char) -> Option<u8> {
    match (digit_value(high), digit_value(low)) {
        (Some(h), Some(l)) => Some((16 * h + l) as u8),
        (None, Some(l)) => if high == '+' {
            Some(l as u8)
        } else {
            None
        },
        _ => None,
    }
}

/// The color that three byte pairs write, one after the other.
pub open spec fn hex_triple(s: Seq<char>) -> Option<Rgb> {
    if s.len() == 6 {
        match (byte_pair(s[0], s[1]), byte_pair(s[2], s[3]), byte_pair(s[4], s[5])) {
            (Some(r), Some(g), Some(b)) => Some(Rgb { r, g, b }),
            _ => None,
        }
    } else {
        None
    }
}

/// The two upper-case digits of a byte.
pub open spec fn byte_digits(n: u8) -> Seq<char> {
    seq![digit(n as int / 16), digit(n as int % 16)]
}

fn read_byte(high: char, low: char) -> (res: Option<u8>)
    ensures
        res == byte_pair(high, low),
{
    match (value_of_digit(high), value_of_digit(low)) {
        (Some(h), Some(l)) => Some(16 * h + l),
        (None, Some(l)) => if high == '+' {
            Some(l)
        } else {
            None
        },
        _ => None,
    }
}

fn push_byte(out: &mut String, n: u8)
    ensures
        final(out)@ == old(out)@ + byte_digits(n),
{
    push_digit(out, n / 16);
    push_digit(out, n % 16);
}

/// A text that reads as three byte pairs is six bytes long.
proof fn lemma_triple_is_six_bytes(s: Seq<char>)
    requires
        hex_triple(s) is Some,
    ensures
        encode_utf8(s).len() == 6,
{
    assert(vstd::utf8::is_ascii_chars(s)) by {
        assert forall|i: int| 0 <= i < s.len() implies '\0' <= #[trigger] s[i] <= '\u{7f}' by {
            assert(i == 0 || i == 1 || i == 2 || i == 3 || i == 4 || i == 5);
        }
    }
    vstd::utf8::is_ascii_chars_encode_utf8(s);
}

/// Six hexadecimal digits stand as they are, with a `#` before them or without.
pub proof fn lemma_plain_hex(digits: Seq<char>)
    requires
        digits.len() == 6,
        forall|i: int| 0 <= i < 6 ==> digit_value(#[trigger] digits[i]) is Some,
    ensures
        hex_part(digits) == digits,
        hex_part(seq!['#'] + digits) == digits,
{
    assert(digit_value(digits[0]) is Some && digit_value(digits[5]) is Some);
    let marked = seq!['#'] + digits;
    lemma_already_trimmed(digits);
    lemma_already_trimmed(marked);
    assert(marked.skip(1) == digits);
    assert(without_hashes(marked) == without_hashes(digits));
}

impl HexColorError {
    /// The message for the user.
    pub open spec fn text(self) -> Seq<char> {
        match self {
            HexColorError::WrongLength { input } =>
                "expected a 6-digit hex color like #RRGGBB, got '"@ + input@ + "'"@,
            HexColorError::InvalidDigit => "invalid digit found in string"@,
        }
    }

    /// The message for the user.
    pub fn message(&self) -> (res: String)
        ensures
            res@ == self.text(),
    {
        let mut out: String = String::new();
        match self {
            HexColorError::WrongLength { input } => {
                out.append("expected a 6-digit hex color like #RRGGBB, got '");
                out.append(input.as_str());
                out.append("'");
            },
            HexColorError::InvalidDigit => {
                out.append("invalid digit found in string");
            },
        }
        out
    }
}

impl Rgb {
    /// `#RRGGBB`.
    pub open spec fn hex_text(self) -> Seq<char> {
        seq!['#'] + byte_digits(self.r) + byte_digits(self.g) + byte_digits(self.b)
    }

    /// `rgb(r, g, b)` with the channels in decimal.
    pub open spec fn rgb_text(self) -> Seq<char> {
        "rgb("@ + decimal(self.r as nat) + ", "@ + decimal(self.g as nat) + ", "@ + decimal(
            self.b as nat,
        ) + ")"@
    }

    /// What follows the `#` in `#RRGGBB` is six hexadecimal digits that write the
    /// color.
    pub proof fn lemma_hex_digits(self)
        ensures
            self.hex_text().len() == 7,
            self.hex_text()[0] == '#',
            forall|i: int|
                0 <= i < 6 ==> digit_value(#[trigger] self.hex_text().skip(1)[i]) is Some,
            hex_triple(self.hex_text().skip(1)) == Some(self),
    {
        lemma_digit_value(self.r as int / 16);
        lemma_digit_value(self.r as int % 16);
        lemma_digit_value(self.g as int / 16);
        lemma_digit_value(self.g as int % 16);
        lemma_digit_value(self.b as int / 16);
        lemma_digit_value(self.b as int % 16);
        let digits = self.hex_text().skip(1);
        assert(digits == byte_digits(self.r) + byte_digits(self.g) + byte_digits(self.b));
        assert forall|i: int| 0 <= i < 6 implies digit_value(#[trigger] digits[i]) is Some by {
            assert(i == 0 || i == 1 || i == 2 || i == 3 || i == 4 || i == 5);
        }
    }

    /// Reading `#RRGGBB` gives back the color it was written for.
    pub proof fn law_hex_round_trip(self)
        ensures
            hex_triple(hex_part(self.hex_text())) == Some(self),
    {
        self.lemma_hex_digits();
        lemma_plain_hex(self.hex_text().skip(1));
        assert(self.hex_text() == seq!['#'] + self.hex_text().skip(1));
    }

    /// The color with these channels.
    pub fn new(r: u8, g: u8, b: u8) -> (res: Self)
        ensures
            res == (Rgb { r, g, b }),
    {
        Self { r, g, b }
    }

    /// The color as `#RRGGBB`.
    pub fn to_hex(self) -> (res: String)
        ensures
            res@ == self.hex_text(),
    {
        proof {
            reveal_strlit("#");
        }
        let mut out: String = String::new();
        out.append("#");
        assert(out@ == seq!['#']);
        push_byte(&mut out, self.r);
        push_byte(&mut out, self.g);
        push_byte(&mut out, self.b);
        out
    }

    /// The color in both notations, as `#RRGGBB rgb(r, g, b)`.
    pub fn describe(self) -> (res: String)
        ensures
            res@ == self.hex_text() + " "@ + self.rgb_text(),
    {
        let mut out: String = self.to_hex();
        out.append(" ");
        let ghost before = out@;
        out.append("rgb(");
        push_decimal(&mut out, self.r as u32);
        out.append(", ");
        push_decimal(&mut out, self.g as u32);
        out.append(", ");
        push_decimal(&mut out, self.b as u32);
        out.append(")");
        assert(out@ == before + self.rgb_text());
        out
    }

    /// Reads a color such as `#RRGGBB` or `rrggbb`.
    ///
    /// Whitespace round the text and any number of leading `#` are ignored. A
    /// remainder of six bytes that is not three byte pairs, which includes one
    /// where a pair would split a character, is an invalid digit.
    pub fn from_hex(input: &str) -> (res: Result<Self, HexColorError>)
        ensures
            res is Ok <==> hex_triple(hex_part(input@)) is Some,
            res matches Ok(color) ==> hex_triple(hex_part(input@)) == Some(color),
            res matches Err(HexColorError::WrongLength { input: given }) ==> given@ == input@,
            (res matches Err(HexColorError::WrongLength { input: given })) <==> encode_utf8(
                hex_part(input@),
            ).len() != 6,
    {
        let t = trim(&chars_of(input));
        let mut from: usize = 0;
        assert(t@.skip(0) == t@);
        while from < t.len() && t[from] == '#'
            invariant
                from <= t@.len(),
                without_hashes(t@) == without_hashes(t@.skip(from as int)),
            decreases t@.len() - from,
        {
            assert(t@.skip(from as int).skip(1) == t@.skip(from + 1));
            from = from + 1;
        }
        let s = part_of(&t, from, t.len());
        assert(s@ == t@.skip(from as int));
        assert(s@ == hex_part(input@));
        proof {
            if hex_triple(s@) is Some {
                lemma_triple_is_six_bytes(s@);
            }
        }
        if !takes_bytes(&s, 6) {
            return Err(HexColorError::WrongLength { input: input.to_owned() });
        }
        if s.len() != 6 {
            return Err(HexColorError::InvalidDigit);
        }
        match (read_byte(s[0], s[1]), read_byte(s[2], s[3]), read_byte(s[4], s[5])) {
            (Some(r), Some(g), Some(b)) => Ok(Self::new(r, g, b)),
            _ => Err(HexColorError::InvalidDigit),
        }
    }

    /// Whether black text reads better than white on this color: whether its
    /// perceived brightness, weighing the channels by 0.299, 0.587 and 0.114,
    /// is above 128.
    pub fn prefers_black_text(self) -> (res: bool)
        ensures
            res == (299 * self.r + 587 * self.g + 114 * self.b > 128_000),
    {
        299 * self.r as u32 + 587 * self.g as u32 + 114 * self.b as u32 > 128_000
    }
}

/// What is written for the byte of two digits is those digits, in upper case.
proof fn lemma_pair_is_upper(high: char, low: char)
    requires
        digit_value(high) is Some,
        digit_value(low) is Some,
    ensures
        byte_pair(high, low) is Some,
        byte_digits(byte_pair(high, low)->0) == seq![upper(high), upper(low)],
{
    lemma_digit_is_upper(high);
    lemma_digit_is_upper(low);
}

/// Six hexadecimal digits of either case, with a `#` before them or without, are
/// read as a color that is written as a `#` and the same digits in upper case.
pub proof fn law_hex_text_is_canonical(digits: Seq<char>)
    requires
        digits.len() == 6,
        forall|i: int| 0 <= i < 6 ==> digit_value(#[trigger] digits[i]) is Some,
    ensures
        hex_triple(hex_part(digits)) is Some,
        hex_triple(hex_part(digits))->0.hex_text() == seq!['#'] + upper_case(digits),
        hex_triple(hex_part(seq!['#'] + digits)) == hex_triple(hex_part(digits)),
{
    lemma_plain_hex(digits);
    assert(digit_value(digits[0]) is Some && digit_value(digits[1]) is Some && digit_value(
        digits[2],
    ) is Some && digit_value(digits[3]) is Some && digit_value(digits[4]) is Some && digit_value(
        digits[5],
    ) is Some);
    lemma_pair_is_upper(digits[0], digits[1]);
    lemma_pair_is_upper(digits[2], digits[3]);
    lemma_pair_is_upper(digits[4], digits[5]);
    assert(hex_triple(digits)->0.hex_text() == seq!['#'] + upper_case(digits));
}

/// Two hexadecimal digits are a byte, the first of them worth sixteen times as
/// much; a plus sign may stand in place of the first; nothing else is a byte.
pub proof fn law_byte_pairs(high: char, low: char)
    ensures
        digit_value(high) is Some && digit_value(low) is Some ==> byte_pair(high, low) is Some
            && byte_pair(high, low)->0 == 16 * digit_value(high)->0 + digit_value(low)->0,
        high == '+' && digit_value(low) is Some ==> byte_pair(high, low) is Some && byte_pair(
            high,
            low,
        )->0 == digit_value(low)->0,
        digit_value(low) is None ==> byte_pair(high, low) is None,
        digit_value(high) is None && high != '+' ==> byte_pair(high, low) is None,
{
}

/// Three byte pairs are a color: red, green and blue, in this order. Fewer or more
/// characters are none, and neither are six of which a pair is no byte.
pub proof fn law_hex_triples(s: Seq<char>)
    ensures
        hex_triple(s) is Some <==> s.len() == 6 && byte_pair(s[0], s[1]) is Some && byte_pair(
            s[2],
            s[3],
        ) is Some && byte_pair(s[4], s[5]) is Some,
        hex_triple(s) matches Some(color) ==> byte_pair(s[0], s[1]) == Some(color.r) && byte_pair(
            s[2],
            s[3],
        ) == Some(color.g) && byte_pair(s[4], s[5]) == Some(color.b),
{
}

proof fn lemma_hashes_are_taken_off(hashes: Seq<char>, s: Seq<char>)
    requires
        forall|i: int| 0 <= i < hashes.len() ==> #[trigger] hashes[i] == '#',
        s.len() > 0 ==> s[0] != '#',
    ensures
        without_hashes(hashes + s) == s,
    decreases hashes.len(),
{
    if hashes.len() > 0 {
        assert((hashes + s)[0] == hashes[0]);
        assert((hashes + s).skip(1) == hashes.skip(1) + s);
        lemma_hashes_are_taken_off(hashes.skip(1), s);
    } else {
        assert(hashes + s == s);
    }
}

/// Of a text, the whitespace at its ends and then any number of leading `#` do not
/// belong to a hexadecimal color, and everything else does.
pub proof fn law_hex_part(before: Seq<char>, hashes: Seq<char>, s: Seq<char>, after: Seq<char>)
    requires
        forall|i: int| 0 <= i < before.len() ==> white_space(#[trigger] before[i]),
        forall|i: int| 0 <= i < hashes.len() ==> #[trigger] hashes[i] == '#',
        forall|i: int| 0 <= i < after.len() ==> white_space(#[trigger] after[i]),
        s.len() > 0 ==> s[0] != '#' && !white_space(s.last()),
        s.len() > 0 && hashes.len() == 0 ==> !white_space(s[0]),
    ensures
        hex_part(before + (hashes + s) + after) == s,
{
    let core = hashes + s;
    if core.len() > 0 {
        assert(core[0] == if hashes.len() > 0 {
            hashes[0]
        } else {
            s[0]
        });
        assert(core.last() == if s.len() > 0 {
            s.last()
        } else {
            hashes[hashes.len() - 1]
        });
    }
    law_trimming(before, core, after);
    lemma_hashes_are_taken_off(hashes, s);
}

/// The notation `#RRGGBB` has two upper-case digits for each of red, green and
/// blue, in this order, and `rgb(r, g, b)` has their decimal digits.
pub proof fn law_color_texts(color: Rgb)
    ensures
        color.hex_text() == seq![
            '#',
            digit(color.r as int / 16),
            digit(color.r as int % 16),
            digit(color.g as int / 16),
            digit(color.g as int % 16),
            digit(color.b as int / 16),
            digit(color.b as int % 16),
        ],
        color.rgb_text() == "rgb("@ + decimal(color.r as nat) + ", "@ + decimal(color.g as nat)
            + ", "@ + decimal(color.b as nat) + ")"@,
{
}

/// An error on the length of a text quotes the text, and one on a digit does not.
pub proof fn law_hex_errors_say_what_is_wrong(input: String)
    ensures
        (HexColorError::WrongLength { input }).text()
            == "expected a 6-digit hex color like #RRGGBB, got '"@ + input@ + "'"@,
        HexColorError::InvalidDigit.text() == "invalid digit found in string"@,
{
}

/// How a contrast ratio is graded.
#[derive(Debug, Clone, Copy, PartialEq, Eq, Structural)]
pub enum WcagLevel {
    Fail,
    AaLargeOnly,
    Aa,
    Aaa,
}

impl WcagLevel {
    /// The name of the level.
    pub open spec fn text(self) -> Seq<char> {
        match self {
            WcagLevel::Fail => "FAIL"@,
            WcagLevel::AaLargeOnly => "AA (large text only)"@,
            WcagLevel::Aa => "AA"@,
            WcagLevel::Aaa => "AAA"@,
        }
    }

    /// The name of the level.
    pub fn label(self) -> (res: &'static str)
        ensures
            res@ == self.text(),
    {
        match self {
            WcagLevel::Fail => "FAIL",
            WcagLevel::AaLargeOnly => "AA (large text only)",
            WcagLevel::Aa => "AA",
            WcagLevel::Aaa => "AAA",
        }
    }

    /// How high the level is.
    pub open spec fn rank(self) -> int {
        match self {
            WcagLevel::Fail => 0,
            WcagLevel::AaLargeOnly => 1,
            WcagLevel::Aa => 2,
            WcagLevel::Aaa => 3,
        }
    }
}

/// The least number of halves in a ratio that level AA asks of a text.
pub open spec fn aa_halves(large_text: bool) -> int {
    if large_text {
        6
    } else {
        9
    }
}

/// The least number of halves in a ratio that level AAA asks of a text.
pub open spec fn aaa_halves(large_text: bool) -> int {
    if large_text {
        9
    } else {
        14
    }
}

/// The grade of a ratio with so many whole halves in it, for a text of normal or
/// large size. A ratio that suffices for large text alone is told apart.
pub open spec fn level_for(ratio_halves: u32, large_text: bool) -> WcagLevel {
    if ratio_halves >= aaa_halves(large_text) {
        WcagLevel::Aaa
    } else if ratio_halves >= aa_halves(large_text) {
        WcagLevel::Aa
    } else if ratio_halves >= aa_halves(true) {
        WcagLevel::AaLargeOnly
    } else {
        WcagLevel::Fail
    }
}

/// Grades a contrast ratio by the WCAG 2.x thresholds: 4.5:1 for AA and 7:1 for
/// AAA, and for large text 3:1 and 4.5:1. The ratio is given as the number of
/// whole halves in it.
pub fn wcag_level(ratio_halves: u32, large_text: bool) -> (res: WcagLevel)
    ensures
        res == level_for(ratio_halves, large_text),
        res == WcagLevel::Aaa <==> ratio_halves >= aaa_halves(large_text),
        res == WcagLevel::Aa <==> aa_halves(large_text) <= ratio_halves < aaa_halves(large_text),
        res == WcagLevel::AaLargeOnly <==> !large_text && 6 <= ratio_halves < 9,
        res == WcagLevel::Fail <==> ratio_halves < 6,
{
    if large_text {
        if ratio_halves >= 9 {
            WcagLevel::Aaa
        } else if ratio_halves >= 6 {
            WcagLevel::Aa
        } else {
            WcagLevel::Fail
        }
    } else if ratio_halves >= 14 {
        WcagLevel::Aaa
    } else if ratio_halves >= 9 {
        WcagLevel::Aa
    } else if ratio_halves >= 6 {
        WcagLevel::AaLargeOnly
    } else {
        WcagLevel::Fail
    }
}

/// Text of normal size is at level AA from 4.5:1 on and at level AAA from 7:1 on,
/// and large text from 3:1 and 4.5:1 on. Below 3:1 any text fails.
pub proof fn law_thresholds(ratio_halves: u32)
    ensures
        level_for(ratio_halves, false) == WcagLevel::Aaa <==> ratio_halves >= 14,
        level_for(ratio_halves, false) == WcagLevel::Aa <==> 9 <= ratio_halves < 14,
        level_for(ratio_halves, false) == WcagLevel::AaLargeOnly <==> 6 <= ratio_halves < 9,
        level_for(ratio_halves, false) == WcagLevel::Fail <==> ratio_halves < 6,
        level_for(ratio_halves, true) == WcagLevel::Aaa <==> ratio_halves >= 9,
        level_for(ratio_halves, true) == WcagLevel::Aa <==> 6 <= ratio_halves < 9,
        level_for(ratio_halves, true) == WcagLevel::Fail <==> ratio_halves < 6,
        aa_halves(false) == 9 && aa_halves(true) == 6,
        aaa_halves(false) == 14 && aaa_halves(true) == 9,
{
}

/// Each level has a name of its own, and the levels are ranked from failing over
/// large text only and AA to AAA.
pub proof fn law_level_names(level: WcagLevel)
    ensures
        level == WcagLevel::Fail <==> level.rank() == 0,
        level == WcagLevel::AaLargeOnly <==> level.rank() == 1,
        level == WcagLevel::Aa <==> level.rank() == 2,
        level == WcagLevel::Aaa <==> level.rank() == 3,
        level == WcagLevel::Fail ==> level.text() == "FAIL"@,
        level == WcagLevel::AaLargeOnly ==> level.text() == "AA (large text only)"@,
        level == WcagLevel::Aa ==> level.text() == "AA"@,
        level == WcagLevel::Aaa ==> level.text() == "AAA"@,
{
}

/// A higher ratio is never graded lower, and neither is a larger text.
pub proof fn law_levels_are_monotone(ratio_halves: u32, more: u32, large_text: bool)
    requires
        ratio_halves <= more,
    ensures
        level_for(ratio_halves, large_text).rank() <= level_for(more, large_text).rank(),
        level_for(ratio_halves, false).rank() <= level_for(ratio_halves, true).rank(),
{
}

/// "Large text only" says exactly that: large text is at level AA, and text of
/// normal size is not.
pub proof fn law_large_only_means_large_only(ratio_halves: u32)
    ensures
        level_for(ratio_halves, false) == WcagLevel::AaLargeOnly <==> level_for(ratio_halves, true)
            == WcagLevel::Aa && ratio_halves < aa_halves(false),
        level_for(ratio_halves, true) != WcagLevel::AaLargeOnly,
{
}

} // verus!
