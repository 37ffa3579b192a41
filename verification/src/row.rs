//! A color field: the color it stands for, and the text in it.
use vstd::prelude::*;
use vstd::string::StrSliceExecFns;

use crate::color::Rgb;
#[allow(unused_imports)]
use crate::color::{hex_part, hex_triple, lemma_plain_hex};
use crate::text::{chars_of, cut_at, occurs, part_of, trim, trim_bounds};
#[allow(unused_imports)]
use crate::text::{
    all_decimal, cut, decimal, decimal_value, digit_value, law_cutting, law_trimming,
    lemma_already_trimmed, lemma_cut_joined, lemma_decimal_reads_back, trimmed, trimmed_start,
    white_space,
};

verus! {

/// Whether a text begins with `rgb`, in letters of either case.
pub open spec fn begins_with_rgb(s: Seq<char>) -> bool {
    &&& s.len() >= 3
    &&& s[0] == 'r' || s[0] == 'R'
    &&& s[1] == 'g' || s[1] == 'G'
    &&& s[2] == 'b' || s[2] == 'B'
}

/// `s` without a first character `c`, if it has one.
pub open spec fn without_first(s: Seq<char>, c: char) -> Seq<char> {
    if s.len() > 0 && s[0] == c {
        s.skip(1)
    } else {
        s
    }
}

/// The channel that a text writes: a decimal number up to 255, with whitespace
/// round it and a plus sign before it if need be.
pub open spec fn channel(s: Seq<char>) -> Option<u8> {
    let digits = without_first(trimmed(s), '+');
    if digits.len() > 0 && all_decimal(digits) && decimal_value(digits) <= 255 {
        Some(decimal_value(digits) as u8)
    } else {
        None
    }
}

/// The color that three channels with commas between them write.
pub open spec fn channel_list(s: Seq<char>) -> Option<Rgb> {
    match cut(s, ',') {
        None => None,
        Some((red, rest)) => match cut(rest, ',') {
            None => None,
            Some((green, blue)) => if blue.contains(',') {
                None
            } else {
                match (channel(red), channel(green), channel(blue)) {
                    (Some(r), Some(g), Some(b)) => Some(Rgb { r, g, b }),
                    _ => None,
                }
            },
        },
    }
}

/// The color in the notation `rgb(r, g, b)`: what counts is what stands between
/// the first opening parenthesis and a closing one at the end.
pub open spec fn rgb_call(s: Seq<char>) -> Option<Rgb> {
    match cut(s, '(') {
        None => None,
        Some((name, rest)) => if rest.len() > 0 && rest.last() == ')' {
            channel_list(rest.drop_last())
        } else {
            None
        },
    }
}

/// The color that a text stands for: `rgb(r, g, b)` where it begins with `rgb`,
/// and else `#rrggbb` or `rrggbb`.
pub open spec fn color_in_text(text: Seq<char>) -> Option<Rgb> {
    let t = trimmed(text);
    if begins_with_rgb(t) {
        rgb_call(t)
    } else {
        hex_triple(hex_part(without_first(t, '#')))
    }
}

proof fn lemma_value_grows(s: Seq<char>, i: int)
    requires
        all_decimal(s),
        0 <= i <= s.len(),
    ensures
        decimal_value(s.take(i)) <= decimal_value(s),
    decreases s.len() - i,
{
    if i == s.len() {
        assert(s.take(i) == s);
    } else {
        lemma_value_grows(s, i + 1);
        assert(s.take(i + 1).drop_last() == s.take(i));
        assert('0' <= s[i] <= '9');
    }
}

fn read_channel(v: &Vec<char>) -> (res: Option<u8>)
    ensures
        res == channel(v@),
{
    let t = trim(v);
    let from: usize = if t.len() > 0 && t[0] == '+' {
        1
    } else {
        0
    };
    let digits = part_of(&t, from, t.len());
    assert(digits@ == without_first(trimmed(v@), '+'));
    if digits.len() == 0 {
        return None;
    }
    let mut value: u32 = 0;
    let mut i: usize = 0;
    while i < digits.len()
        invariant
            i <= digits@.len(),
            digits@ == without_first(trimmed(v@), '+'),
            all_decimal(digits@.take(i as int)),
            value == decimal_value(digits@.take(i as int)),
            value <= 255,
        decreases digits@.len() - i,
    {
        let c: char = digits[i];
        if c < '0' || '9' < c {
            assert(!all_decimal(digits@));
            return None;
        }
        assert(digits@.take(i + 1).drop_last() == digits@.take(i as int));
        assert(digits@.take(i + 1).last() == c);
        value = 10 * value + (c as u32 - '0' as u32);
        i = i + 1;
        if value > 255 {
            proof {
                if all_decimal(digits@) {
                    lemma_value_grows(digits@, i as int);
                }
            }
            return None;
        }
    }
    assert(digits@.take(i as int) == digits@);
    Some(value as u8)
}

fn read_channel_list(v: &Vec<char>) -> (res: Option<Rgb>)
    ensures
        res == channel_list(v@),
{
    match cut_at(v, ',') {
        None => None,
        Some((red, rest)) => match cut_at(&rest, ',') {
            None => None,
            Some((green, blue)) => {
                if occurs(&blue, ',') {
                    return None;
                }
                match (read_channel(&red), read_channel(&green), read_channel(&blue)) {
                    (Some(r), Some(g), Some(b)) => Some(Rgb::new(r, g, b)),
                    _ => None,
                }
            },
        },
    }
}

/// Reads `#rrggbb`, `rrggbb`, or `rgb(r, g, b)`.
pub fn parse_color(text: &str) -> (res: Option<Rgb>)
    ensures
        res == color_in_text(text@),
{
    let chars = chars_of(text);
    let (from, to) = trim_bounds(&chars);
    let t = part_of(&chars, from, to);
    if t.len() >= 3 && (t[0] == 'r' || t[0] == 'R') && (t[1] == 'g' || t[1] == 'G') && (t[2] == 'b'
        || t[2] == 'B') {
        return match cut_at(&t, '(') {
            None => None,
            Some((_, rest)) => {
                if rest.len() == 0 || rest[rest.len() - 1] != ')' {
                    None
                } else {
                    let inner = part_of(&rest, 0, rest.len() - 1);
                    assert(inner@ == rest@.drop_last());
                    read_channel_list(&inner)
                }
            },
        };
    }
    let hex_from: usize = if t.len() > 0 && t[0] == '#' {
        from + 1
    } else {
        from
    };
    let hex = text.substring_char(hex_from, to);
    assert(hex@ == without_first(t@, '#'));
    match Rgb::from_hex(hex) {
        Ok(color) => Some(color),
        Err(_) => None,
    }
}

/// Six hexadecimal digits, in either case, are a color, and so they are with a
/// `#` before them: the color whose channels they write.
pub proof fn law_hex_notation(digits: Seq<char>)
    requires
        digits.len() == 6,
        forall|i: int| 0 <= i < 6 ==> digit_value(#[trigger] digits[i]) is Some,
    ensures
        hex_triple(digits) is Some,
        color_in_text(digits) == hex_triple(digits),
        color_in_text(seq!['#'] + digits) == hex_triple(digits),
        hex_triple(digits)->0.r == 16 * digit_value(digits[0])->0 + digit_value(digits[1])->0,
        hex_triple(digits)->0.g == 16 * digit_value(digits[2])->0 + digit_value(digits[3])->0,
        hex_triple(digits)->0.b == 16 * digit_value(digits[4])->0 + digit_value(digits[5])->0,
{
    assert(digit_value(digits[0]) is Some && digit_value(digits[1]) is Some && digit_value(
        digits[2],
    ) is Some && digit_value(digits[3]) is Some && digit_value(digits[4]) is Some && digit_value(
        digits[5],
    ) is Some);
    let marked = seq!['#'] + digits;
    lemma_already_trimmed(digits);
    lemma_already_trimmed(marked);
    assert(marked.skip(1) == digits);
    lemma_plain_hex(digits);
}

/// Decimal channels read back as the channel they were written for, with a
/// space before them or without.
proof fn lemma_channel_reads_back(n: u8)
    ensures
        channel(decimal(n as nat)) == Some(n),
        channel(seq![' '] + decimal(n as nat)) == Some(n),
        !decimal(n as nat).contains(','),
        !(seq![' '] + decimal(n as nat)).contains(','),
        !decimal(n as nat).contains('('),
{
    let d = decimal(n as nat);
    lemma_decimal_reads_back(n as nat);
    assert('0' <= d[0] <= '9');
    assert('0' <= d.last() <= '9');
    lemma_already_trimmed(d);
    let spaced = seq![' '] + d;
    assert(spaced.skip(1) == d);
    assert(trimmed_start(spaced) == trimmed_start(d));
    assert forall|i: int| 0 <= i < spaced.len() implies spaced[i] != ',' by {
        if i > 0 {
            assert(spaced[i] == d[i - 1]);
            assert('0' <= d[i - 1] <= '9');
        }
    }
}

/// Every notation that a color is written in reads back as that color.
pub proof fn law_notations_read_back(color: Rgb)
    ensures
        color_in_text(color.hex_text()) == Some(color),
        color_in_text(color.hex_text().skip(1)) == Some(color),
        color_in_text(color.rgb_text()) == Some(color),
{
    let hex = color.hex_text();
    let digits = hex.skip(1);
    color.lemma_hex_digits();
    assert(hex == seq!['#'] + digits);
    law_hex_notation(digits);

    let (r, g, b) = (
        decimal(color.r as nat),
        decimal(color.g as nat),
        decimal(color.b as nat),
    );
    reveal_strlit("rgb(");
    reveal_strlit(", ");
    reveal_strlit(")");
    let text = color.rgb_text();
    let name = seq!['r', 'g', 'b'];
    let blue = seq![' '] + b;
    let green = seq![' '] + g;
    let list = r + seq![','] + (green + seq![','] + blue);
    let rest = list + seq![')'];
    lemma_channel_reads_back(color.r);
    lemma_channel_reads_back(color.g);
    lemma_channel_reads_back(color.b);
    assert(text == name + seq!['('] + rest);
    lemma_already_trimmed(text);
    lemma_cut_joined(name, '(', rest);
    assert(rest.drop_last() == list);
    lemma_cut_joined(r, ',', green + seq![','] + blue);
    lemma_cut_joined(green, ',', blue);
}

/// A channel is decimal digits for a number up to 255, with whitespace round them
/// and a plus sign before them or without.
pub proof fn law_channels(before: Seq<char>, digits: Seq<char>, after: Seq<char>)
    requires
        digits.len() > 0,
        forall|i: int| 0 <= i < digits.len() ==> 0x30 <= #[trigger] digits[i] as int <= 0x39,
        forall|i: int| 0 <= i < before.len() ==> white_space(#[trigger] before[i]),
        forall|i: int| 0 <= i < after.len() ==> white_space(#[trigger] after[i]),
    ensures
        decimal_value(digits) <= 255 ==> channel(before + digits + after) is Some && channel(
            before + digits + after,
        )->0 == decimal_value(digits),
        decimal_value(digits) > 255 ==> channel(before + digits + after) is None,
        channel(before + (seq!['+'] + digits) + after) == channel(before + digits + after),
{
    assert(0x30 <= digits[0] as int <= 0x39);
    assert(0x30 <= digits[digits.len() - 1] as int <= 0x39);
    let signed = seq!['+'] + digits;
    law_trimming(before, digits, after);
    law_trimming(before, signed, after);
    assert(signed.skip(1) == digits);
    assert(all_decimal(digits));
}

/// Nothing at all is no channel, a plus sign alone is none, and neither is what
/// holds a character that is no decimal digit, but for a plus sign at its start.
pub proof fn law_other_texts_are_no_channel(before: Seq<char>, s: Seq<char>, after: Seq<char>, i: int)
    requires
        s.len() > 0 ==> !white_space(s[0]) && !white_space(s.last()),
        forall|i: int| 0 <= i < before.len() ==> white_space(#[trigger] before[i]),
        forall|i: int| 0 <= i < after.len() ==> white_space(#[trigger] after[i]),
    ensures
        s.len() == 0 ==> channel(before + s + after) is None,
        s == seq!['+'] ==> channel(before + s + after) is None,
        0 <= i < s.len() && !(0x30 <= s[i] as int <= 0x39) && !(i == 0 && s[i] == '+') ==> channel(
            before + s + after,
        ) is None,
{
    law_trimming(before, s, after);
    let digits = without_first(s, '+');
    if 0 <= i < s.len() && !(0x30 <= s[i] as int <= 0x39) && !(i == 0 && s[i] == '+') {
        if s[0] == '+' {
            assert(digits[i - 1] == s[i]);
        } else {
            assert(digits[i] == s[i]);
        }
        assert(!all_decimal(digits));
    }
}

/// A text that begins with `rgb`, in letters of either case, is a color exactly if
/// three channels, with a comma between each two, stand between its first opening
/// parenthesis and a closing one at its end: red, green and blue, in this order.
/// A comma more makes it none.
pub proof fn law_rgb_notation(name: Seq<char>, r: Seq<char>, g: Seq<char>, b: Seq<char>)
    requires
        name.len() >= 3,
        name[0] == 'r' || name[0] == 'R',
        name[1] == 'g' || name[1] == 'G',
        name[2] == 'b' || name[2] == 'B',
        !name.contains('('),
        !r.contains(','),
        !g.contains(','),
    ensures
        ({
            let text = name + seq!['('] + r + seq![','] + g + seq![','] + b + seq![')'];
            let read = color_in_text(text);
            &&& read is Some <==> channel(r) is Some && channel(g) is Some && channel(b) is Some
                && !b.contains(',')
            &&& read matches Some(color) ==> channel(r) == Some(color.r) && channel(g) == Some(
                color.g,
            ) && channel(b) == Some(color.b)
        }),
        color_in_text(name + seq!['('] + r + seq![')']) is None,
        color_in_text(name + seq!['('] + r + seq![','] + g + seq![')']) is None,
{
    let three = r + seq![','] + (g + seq![','] + b);
    let text = name + seq!['('] + r + seq![','] + g + seq![','] + b + seq![')'];
    assert(text == name + seq!['('] + (three + seq![')']));
    lemma_rgb_call(name, three);
    lemma_cut_joined(r, ',', g + seq![','] + b);
    lemma_cut_joined(g, ',', b);
    let one = name + seq!['('] + r + seq![')'];
    assert(one == name + seq!['('] + (r + seq![')']));
    lemma_rgb_call(name, r);
    law_cutting(r, ',');
    let two = r + seq![','] + g;
    assert(name + seq!['('] + r + seq![','] + g + seq![')'] == name + seq!['('] + (two + seq![')']));
    lemma_rgb_call(name, two);
    lemma_cut_joined(r, ',', g);
    law_cutting(g, ',');
}

proof fn lemma_rgb_call(name: Seq<char>, inner: Seq<char>)
    requires
        begins_with_rgb(name),
        !name.contains('('),
    ensures
        color_in_text(name + seq!['('] + (inner + seq![')'])) == channel_list(inner),
{
    let rest = inner + seq![')'];
    let text = name + seq!['('] + rest;
    assert(text[0] == name[0] && text[1] == name[1] && text[2] == name[2]);
    assert(text.last() == ')');
    lemma_already_trimmed(text);
    lemma_cut_joined(name, '(', rest);
    assert(rest.drop_last() == inner);
}

/// A text that begins with `rgb` is no color without an opening parenthesis, and
/// none without a closing one at its end.
pub proof fn law_rgb_needs_its_parentheses(text: Seq<char>)
    requires
        text.len() >= 3,
        text[0] == 'r' || text[0] == 'R',
        text[1] == 'g' || text[1] == 'G',
        text[2] == 'b' || text[2] == 'B',
        !white_space(text.last()),
        !text.contains('(') || text.last() != ')',
    ensures
        color_in_text(text) is None,
{
    lemma_already_trimmed(text);
    law_cutting(text, '(');
    if let Some((name, rest)) = cut(text, '(') {
        if rest.len() > 0 {
            assert(text.last() == rest.last());
        }
    }
}

/// A text that begins with neither `rgb` nor `#` is a color exactly if it is one in
/// hexadecimal, and the same one.
pub proof fn law_other_texts_are_hexadecimal(text: Seq<char>)
    requires
        text.len() > 0 ==> text[0] != '#' && !white_space(text[0]) && !white_space(text.last()),
        !(text.len() >= 3 && (text[0] == 'r' || text[0] == 'R') && (text[1] == 'g' || text[1] == 'G')
            && (text[2] == 'b' || text[2] == 'B')),
    ensures
        color_in_text(text) == hex_triple(hex_part(text)),
{
    lemma_already_trimmed(text);
}

/// After a `#`, a text is a color exactly if it is one in hexadecimal, and the same
/// one, whatever it begins with.
pub proof fn law_hexadecimal_after_a_hash(text: Seq<char>)
    requires
        text.len() > 0 ==> !white_space(text.last()),
    ensures
        color_in_text(seq!['#'] + text) == hex_triple(hex_part(text)),
{
    let marked = seq!['#'] + text;
    if text.len() > 0 {
        assert(marked.last() == text.last());
    }
    lemma_already_trimmed(marked);
    assert(marked.skip(1) == text);
}

/// Whitespace round a text makes no difference to the color it stands for.
pub proof fn law_whitespace_round_a_color(before: Seq<char>, text: Seq<char>, after: Seq<char>)
    requires
        text.len() > 0 ==> !white_space(text[0]) && !white_space(text.last()),
        forall|i: int| 0 <= i < before.len() ==> white_space(#[trigger] before[i]),
        forall|i: int| 0 <= i < after.len() ==> white_space(#[trigger] after[i]),
    ensures
        color_in_text(before + text + after) == color_in_text(text),
{
    law_trimming(before, text, after);
    lemma_already_trimmed(text);
}

/// What a color field is to its user.
#[verifier::ext_equal]
pub struct RowView {
    pub label: Seq<char>,
    pub color: Rgb,
    pub text: Seq<char>,
    pub last_valid: Seq<char>,
}

impl RowView {
    /// The field after it was set to a color.
    pub open spec fn with_color(self, color: Rgb) -> RowView {
        RowView { color, text: color.hex_text(), last_valid: color.hex_text(), ..self }
    }

    /// The field after its text was edited: it takes the color that the text
    /// stands for, if any, and leaves the text alone.
    pub open spec fn edited(self) -> RowView {
        match color_in_text(self.text) {
            Some(color) => RowView { color, last_valid: color.hex_text(), ..self },
            None => self,
        }
    }

    /// The field after the user has left it: the text is the last valid one.
    pub open spec fn left(self) -> RowView {
        RowView { text: self.last_valid, ..self }
    }

    /// The field after a frame in which its text was edited or it was left.
    pub open spec fn after(self, field: FieldEvents) -> RowView {
        let edited = if field.changed {
            self.edited()
        } else {
            self
        };
        if field.lost_focus {
            edited.left()
        } else {
            edited
        }
    }

    /// Whether a frame gives the field a color.
    pub open spec fn takes_color(self, field: FieldEvents) -> bool {
        field.changed && color_in_text(self.text) is Some
    }

    /// The text to restore is that of the color.
    pub open spec fn consistent(self) -> bool {
        self.last_valid == self.color.hex_text()
    }
}

/// What has happened to a color field in one frame.
#[derive(Debug, Clone, Copy)]
pub struct FieldEvents {
    /// The text was edited.
    pub changed: bool,
    /// The user has left the field.
    pub lost_focus: bool,
    /// The field's pick button was pressed.
    pub pick_pressed: bool,
}

/// What a color field asks for after a frame.
#[derive(Debug, Clone, Copy)]
pub struct RowResponse {
    /// The field was given a color.
    pub changed: bool,
    /// A color is to be picked from the screen.
    pub pick: bool,
}

/// A color field.
pub struct ColorRowState {
    pub label: &'static str,
    pub color: Rgb,
    /// The text in the field, which need not be that of a color while the user
    /// types.
    pub hex_text: String,
    /// The text that the field goes back to when the user leaves it.
    pub last_valid_hex: String,
}

impl View for ColorRowState {
    type V = RowView;

    open spec fn view(&self) -> RowView {
        RowView {
            label: self.label@,
            color: self.color,
            text: self.hex_text@,
            last_valid: self.last_valid_hex@,
        }
    }
}

impl ColorRowState {
    /// A field with a label and a color.
    pub fn new(label: &'static str, color: Rgb) -> (res: Self)
        ensures
            res@ == (RowView {
                label: label@,
                color,
                text: color.hex_text(),
                last_valid: color.hex_text(),
            }),
            res@.consistent(),
    {
        ColorRowState { label, color, hex_text: color.to_hex(), last_valid_hex: color.to_hex() }
    }

    /// Sets the field to a color.
    pub fn set_color(&mut self, color: Rgb)
        ensures
            final(self)@ == old(self)@.with_color(color),
            final(self)@.consistent(),
    {
        self.color = color;
        self.hex_text = color.to_hex();
        self.last_valid_hex = color.to_hex();
    }

    /// Handles one frame of the field, whose text the user may have edited.
    /// While a color is being picked, the pick button is disabled.
    pub fn respond(&mut self, field: FieldEvents, picking: bool) -> (res: RowResponse)
        ensures
            final(self)@ == old(self)@.after(field),
            old(self)@.consistent() ==> final(self)@.consistent(),
            res.changed == old(self)@.takes_color(field),
            !res.changed ==> final(self).color == old(self).color,
            res.pick == (field.pick_pressed && !picking),
    {
        let mut changed: bool = false;
        if field.changed {
            if let Some(parsed) = parse_color(self.hex_text.as_str()) {
                self.color = parsed;
                self.last_valid_hex = parsed.to_hex();
                changed = true;
            }
        }
        if field.lost_focus {
            self.hex_text = self.last_valid_hex.clone();
        }
        RowResponse { changed, pick: field.pick_pressed && !picking }
    }
}

/// What is said of a field is said of its own label, color and texts.
pub proof fn law_a_field_is_what_it_holds(row: ColorRowState)
    ensures
        row@.label == row.label@,
        row@.color == row.color,
        row@.text == row.hex_text@,
        row@.last_valid == row.last_valid_hex@,
{
}

/// Typing a text that stands for a color gives the field exactly that color, in
/// all three channels, and tells so. The text stays as it was typed until the
/// field is left, and then is that color's.
pub proof fn law_a_typed_color_is_taken(row: RowView, color: Rgb, field: FieldEvents)
    requires
        field.changed,
        color_in_text(row.text) == Some(color),
    ensures
        row.after(field).color == color,
        row.after(field).last_valid == color.hex_text(),
        row.after(field).label == row.label,
        !field.lost_focus ==> row.after(field).text == row.text,
        field.lost_focus ==> row.after(field).text == color.hex_text(),
        row.takes_color(field),
{
}

/// Every color can be typed, as `#RRGGBB`, `RRGGBB` or `rgb(r, g, b)`: the field
/// then has that color, and shows it once it is left.
pub proof fn law_every_color_can_be_typed(
    row: RowView,
    color: Rgb,
    typed: Seq<char>,
    field: FieldEvents,
)
    requires
        field.changed,
        typed == color.hex_text() || typed == color.hex_text().skip(1) || typed == color.rgb_text(),
    ensures
        (RowView { text: typed, ..row }).after(field).color == color,
        field.lost_focus ==> (RowView { text: typed, ..row }).after(field).text == color.hex_text(),
{
    law_notations_read_back(color);
    law_a_typed_color_is_taken(RowView { text: typed, ..row }, color, field);
}

/// A frame without an edit, and one in which the text is no color, leaves a field
/// its color, its label and the text to restore; and but for leaving the field,
/// which restores that text, the text as well.
pub proof fn law_other_frames_keep_the_color(row: RowView, field: FieldEvents)
    requires
        !field.changed || color_in_text(row.text) is None,
    ensures
        row.after(field).color == row.color,
        row.after(field).last_valid == row.last_valid,
        row.after(field).label == row.label,
        !field.lost_focus ==> row.after(field).text == row.text,
        field.lost_focus ==> row.after(field).text == row.last_valid,
        !row.takes_color(field),
{
}

/// A field that is set to a color has that color, shows it, and would restore it,
/// whatever was in it before; its label stays.
pub proof fn law_a_set_color_is_shown(row: RowView, color: Rgb)
    ensures
        row.with_color(color).color == color,
        row.with_color(color).label == row.label,
        row.with_color(color).text == row.with_color(color).last_valid,
        color_in_text(row.with_color(color).text) == Some(color),
        row.with_color(color).text == color.hex_text(),
        row.consistent() <==> row.last_valid == row.color.hex_text(),
{
    law_notations_read_back(color);
}

/// A field that the user leaves shows its color: as `#RRGGBB`, which reads back
/// as that color, whatever was typed before.
pub proof fn law_left_field_shows_its_color(row: RowView, field: FieldEvents)
    requires
        row.consistent(),
        field.lost_focus,
    ensures
        row.after(field).text == row.after(field).color.hex_text(),
        color_in_text(row.after(field).text) == Some(row.after(field).color),
{
    law_notations_read_back(row.after(field).color);
}

/// Text that is no color changes nothing of a field but the text itself, and
/// leaving the field takes that back.
pub proof fn law_invalid_text_is_taken_back(row: RowView, typed: Seq<char>, field: FieldEvents)
    requires
        row.consistent(),
        color_in_text(typed) is None,
        field.lost_focus,
    ensures
        (RowView { text: typed, ..row }).after(field) == (RowView {
            text: row.color.hex_text(),
            ..row
        }),
{
}

} // verus!
