//! Character-level text handling: the whitespace that is trimmed from what a
//! user types, cutting text at a separator, and writing numbers.
//!
//! A text is modelled as the sequence of its characters.
use vstd::prelude::*;
use vstd::string::StringExecFns;
use vstd::utf8::{char_is_scalar, encode_utf8};

verus! {

/// The characters with the Unicode `White_Space` property.
pub open spec fn white_space(c: char) -> bool {
    ||| '\u{9}' <= c <= '\u{d}'
    ||| c == ' '
    ||| c == '\u{85}'
    ||| c == '\u{a0}'
    ||| c == '\u{1680}'
    ||| '\u{2000}' <= c <= '\u{200a}'
    ||| c == '\u{2028}'
    ||| c == '\u{2029}'
    ||| c == '\u{202f}'
    ||| c == '\u{205f}'
    ||| c == '\u{3000}'
}

/// Whether `c` has the Unicode `White_Space` property.
pub fn is_white_space(c: char) -> (res: bool)
    ensures
        res == white_space(c),
{
    ('\u{9}' <= c && c <= '\u{d}') || c == ' ' || c == '\u{85}' || c == '\u{a0}' || c == '\u{1680}'
        || ('\u{2000}' <= c && c <= '\u{200a}') || c == '\u{2028}' || c == '\u{2029}' || c
        == '\u{202f}' || c == '\u{205f}' || c == '\u{3000}'
}

/// `s` without its leading whitespace.
pub open spec fn trimmed_start(s: Seq<char>) -> Seq<char>
    decreases s.len(),
{
    if s.len() > 0 && white_space(s[0]) {
        trimmed_start(s.skip(1))
    } else {
        s
    }
}

/// `s` without its trailing whitespace.
pub open spec fn trimmed_end(s: Seq<char>) -> Seq<char>
    decreases s.len(),
{
    if s.len() > 0 && white_space(s.last()) {
        trimmed_end(s.drop_last())
    } else {
        s
    }
}

/// `s` without its leading and trailing whitespace.
pub open spec fn trimmed(s: Seq<char>) -> Seq<char> {
    trimmed_end(trimmed_start(s))
}

/// A text that does not begin or end with whitespace is its own trimming.
pub proof fn lemma_already_trimmed(s: Seq<char>)
    requires
        s.len() > 0 ==> !white_space(s[0]) && !white_space(s.last()),
    ensures
        trimmed(s) == s,
{
}

/// Trimming never leaves whitespace at either end.
pub proof fn lemma_trimmed_ends(s: Seq<char>)
    ensures
        trimmed(s).len() > 0 ==> !white_space(trimmed(s)[0]) && !white_space(trimmed(s).last()),
{
    lemma_trimmed_start_front(s);
    lemma_trimmed_end_back(trimmed_start(s));
}

proof fn lemma_trimmed_start_front(s: Seq<char>)
    ensures
        trimmed_start(s).len() > 0 ==> !white_space(trimmed_start(s)[0]),
    decreases s.len(),
{
    if s.len() > 0 && white_space(s[0]) {
        lemma_trimmed_start_front(s.skip(1));
    }
}

proof fn lemma_trimmed_end_back(s: Seq<char>)
    ensures
        trimmed_end(s).len() > 0 ==> !white_space(trimmed_end(s).last()) && trimmed_end(s)[0]
            == s[0],
    decreases s.len(),
{
    if s.len() > 0 && white_space(s.last()) {
        lemma_trimmed_end_back(s.drop_last());
    }
}

/// Whitespace is tab, line feed, vertical tab, form feed, carriage return, space,
/// next line, no-break space, and the Unicode spaces and separators beyond.
pub proof fn law_white_space(c: char)
    ensures
        white_space(c) <==> (9 <= c as int <= 13 || c as int == 0x20 || c as int == 0x85 || c as int
            == 0xa0 || c as int == 0x1680 || 0x2000 <= c as int <= 0x200a || c as int == 0x2028
            || c as int == 0x2029 || c as int == 0x202f || c as int == 0x205f || c as int == 0x3000),
{
}

proof fn lemma_all_white_space(s: Seq<char>)
    requires
        forall|i: int| 0 <= i < s.len() ==> white_space(#[trigger] s[i]),
    ensures
        trimmed_start(s).len() == 0,
    decreases s.len(),
{
    if s.len() > 0 {
        assert(white_space(s[0]));
        lemma_all_white_space(s.skip(1));
    }
}

/// Trimming takes off exactly the whitespace at both ends: whatever begins and
/// ends with something else is left as it is, and of whitespace alone nothing.
pub proof fn law_trimming(before: Seq<char>, core: Seq<char>, after: Seq<char>)
    requires
        core.len() > 0 ==> !white_space(core[0]) && !white_space(core.last()),
        forall|i: int| 0 <= i < before.len() ==> white_space(#[trigger] before[i]),
        forall|i: int| 0 <= i < after.len() ==> white_space(#[trigger] after[i]),
    ensures
        trimmed(before + core + after) == core,
    decreases before.len() + after.len(),
{
    let text = before + core + after;
    if core.len() == 0 {
        lemma_all_white_space(text);
        assert(trimmed_start(text) == core);
    } else if before.len() > 0 {
        assert(text[0] == before[0]);
        assert(text.skip(1) == before.skip(1) + core + after);
        law_trimming(before.skip(1), core, after);
    } else if after.len() > 0 {
        assert(text[0] == core[0]);
        assert(text.last() == after.last());
        let shorter = before + core + after.drop_last();
        assert(text.drop_last() == shorter);
        assert(shorter[0] == core[0]);
        law_trimming(before, core, after.drop_last());
    } else {
        assert(text == core);
        lemma_already_trimmed(core);
    }
}

/// What stands before and after the first `sep` in `s`, if there is one.
pub open spec fn cut(s: Seq<char>, sep: char) -> Option<(Seq<char>, Seq<char>)>
    decreases s.len(),
{
    if s.len() == 0 {
        None
    } else if s[0] == sep {
        Some((Seq::empty(), s.skip(1)))
    } else {
        match cut(s.skip(1), sep) {
            None => None,
            Some((before, after)) => Some((seq![s[0]] + before, after)),
        }
    }
}

/// Cutting a text that is put together round a separator gives the two sides.
pub proof fn lemma_cut_joined(before: Seq<char>, sep: char, after: Seq<char>)
    requires
        !before.contains(sep),
    ensures
        cut(before + seq![sep] + after, sep) == Some((before, after)),
    decreases before.len(),
{
    let s = before + seq![sep] + after;
    if before.len() == 0 {
        assert(s.skip(1) == after);
        assert(before == Seq::<char>::empty());
    } else {
        let rest = before.skip(1);
        assert(before[0] != sep) by {
            assert(before.contains(before[0]));
        }
        assert(!rest.contains(sep)) by {
            if rest.contains(sep) {
                let i = choose|i: int| 0 <= i < rest.len() && rest[i] == sep;
                assert(before[i + 1] == sep);
            }
        }
        lemma_cut_joined(rest, sep, after);
        assert(s.skip(1) == rest + seq![sep] + after);
        assert(seq![s[0]] + rest == before);
    }
}

/// Cutting takes a text apart at its first separator, if it has one, and loses
/// nothing but that separator.
pub proof fn law_cutting(s: Seq<char>, sep: char)
    ensures
        cut(s, sep) is Some <==> s.contains(sep),
        cut(s, sep) matches Some((before, after)) ==> s == before + seq![sep] + after
            && !before.contains(sep),
    decreases s.len(),
{
    if !s.contains(sep) {
        lemma_cut_absent(s, sep);
    } else {
        let i = choose|i: int| 0 <= i < s.len() && s[i] == sep;
        if s[0] == sep {
            assert(s == Seq::<char>::empty() + seq![sep] + s.skip(1));
        } else {
            let rest = s.skip(1);
            assert(rest[i - 1] == sep);
            law_cutting(rest, sep);
            let (before, after) = cut(rest, sep)->0;
            assert(s == (seq![s[0]] + before) + seq![sep] + after) by {
                assert(s == seq![s[0]] + rest);
            }
            assert(!(seq![s[0]] + before).contains(sep)) by {
                if (seq![s[0]] + before).contains(sep) {
                    let k = choose|k: int|
                        0 <= k < before.len() + 1 && (seq![s[0]] + before)[k] == sep;
                    assert(before[k - 1] == sep);
                }
            }
        }
    }
}

/// The characters of a string.
pub fn chars_of(s: &str) -> (v: Vec<char>)
    ensures
        v@ == s@,
{
    let mut v: Vec<char> = Vec::new();
    for c in it: s.chars()
        invariant
            v@ == it.seq().take(it.index() as int),
            it.seq() == s@,
    {
        v.push(c);
    }
    v
}

/// The characters of `v` from `from` up to `to`.
pub fn part_of(v: &Vec<char>, from: usize, to: usize) -> (res: Vec<char>)
    requires
        from <= to <= v@.len(),
    ensures
        res@ == v@.subrange(from as int, to as int),
{
    let mut res: Vec<char> = Vec::new();
    let mut i: usize = from;
    while i < to
        invariant
            from <= i <= to <= v@.len(),
            res@ == v@.subrange(from as int, i as int),
        decreases to - i,
    {
        res.push(v[i]);
        i = i + 1;
        assert(v@.subrange(from as int, i as int) == v@.subrange(from as int, i - 1).push(
            v@[i - 1],
        ));
    }
    res
}

/// Where the trimming of `v` begins and ends.
pub fn trim_bounds(v: &Vec<char>) -> (res: (usize, usize))
    ensures
        res.0 <= res.1 <= v@.len(),
        v@.subrange(res.0 as int, res.1 as int) == trimmed(v@),
{
    let mut from: usize = 0;
    assert(v@.skip(0) == v@);
    while from < v.len() && is_white_space(v[from])
        invariant
            from <= v@.len(),
            trimmed_start(v@) == trimmed_start(v@.skip(from as int)),
        decreases v@.len() - from,
    {
        assert(v@.skip(from as int).skip(1) == v@.skip(from + 1));
        from = from + 1;
    }
    let ghost start = v@.skip(from as int);
    assert(trimmed_start(v@) == start);
    let mut to: usize = v.len();
    assert(v@.subrange(from as int, to as int) == start);
    while from < to && is_white_space(v[to - 1])
        invariant
            from <= to <= v@.len(),
            trimmed_end(start) == trimmed_end(v@.subrange(from as int, to as int)),
        decreases to,
    {
        assert(v@.subrange(from as int, to as int).drop_last() == v@.subrange(
            from as int,
            to - 1,
        ));
        to = to - 1;
    }
    (from, to)
}

/// `v` without its leading and trailing whitespace.
pub fn trim(v: &Vec<char>) -> (res: Vec<char>)
    ensures
        res@ == trimmed(v@),
{
    let (from, to) = trim_bounds(v);
    part_of(v, from, to)
}

/// What stands before and after the first `sep` in `v`.
pub fn cut_at(v: &Vec<char>, sep: char) -> (res: Option<(Vec<char>, Vec<char>)>)
    ensures
        match res {
            None => cut(v@, sep) is None,
            Some((before, after)) => cut(v@, sep) == Some((before@, after@)),
        },
{
    let mut i: usize = 0;
    while i < v.len()
        invariant
            i <= v@.len(),
            !v@.take(i as int).contains(sep),
        decreases v@.len() - i,
    {
        if v[i] == sep {
            let before = part_of(v, 0, i);
            let after = part_of(v, i + 1, v.len());
            proof {
                assert(before@ == v@.take(i as int));
                assert(v@ == before@ + seq![sep] + after@);
                lemma_cut_joined(before@, sep, after@);
            }
            return Some((before, after));
        }
        proof {
            let longer = v@.take(i + 1);
            if longer.contains(sep) {
                let k = choose|k: int| 0 <= k < longer.len() && longer[k] == sep;
                assert(v@.take(i as int)[k] == sep);
            }
        }
        i = i + 1;
    }
    proof {
        assert(v@.take(i as int) == v@);
        lemma_cut_absent(v@, sep);
    }
    None
}

proof fn lemma_cut_absent(s: Seq<char>, sep: char)
    requires
        !s.contains(sep),
    ensures
        cut(s, sep) is None,
    decreases s.len(),
{
    if s.len() > 0 {
        assert(s.contains(s[0]));
        let rest = s.skip(1);
        if rest.contains(sep) {
            let i = choose|i: int| 0 <= i < rest.len() && rest[i] == sep;
            assert(s[i + 1] == sep);
        }
        lemma_cut_absent(rest, sep);
    }
}

/// Whether `c` occurs in `v`.
pub fn occurs(v: &Vec<char>, c: char) -> (res: bool)
    ensures
        res == v@.contains(c),
{
    let mut i: usize = 0;
    while i < v.len()
        invariant
            i <= v@.len(),
            forall|k: int| 0 <= k < i ==> v@[k] != c,
        decreases v@.len() - i,
    {
        if v[i] == c {
            return true;
        }
        i = i + 1;
    }
    false
}

/// Whether the UTF-8 encoding of `v` takes `n` bytes.
pub fn takes_bytes(v: &Vec<char>, n: u32) -> (res: bool)
    requires
        n < u32::MAX - 4,
    ensures
        res == (encode_utf8(v@).len() == n),
{
    let mut i: usize = 0;
    let mut count: u32 = 0;
    assert(v@.skip(0) == v@);
    while i < v.len()
        invariant
            i <= v@.len(),
            count <= n < u32::MAX - 4,
            encode_utf8(v@).len() == count + encode_utf8(v@.skip(i as int)).len(),
        decreases v@.len() - i,
    {
        let c: u32 = v[i] as u32;
        let width: u32 = if c <= 0x7f {
            1
        } else if c <= 0x7ff {
            2
        } else if c <= 0xffff {
            3
        } else {
            4
        };
        assert(v@.skip(i as int).drop_first() == v@.skip(i + 1));
        proof {
            char_is_scalar(v@[i as int]);
        }
        count = count + width;
        i = i + 1;
        if count > n {
            return false;
        }
    }
    count == n
}

/// The upper-case digit of the value `d`, below sixteen.
pub open spec fn digit(d: int) -> char
    recommends
        0 <= d < 16,
{
    seq!['0', '1', '2', '3', '4', '5', '6', '7', '8', '9', 'A', 'B', 'C', 'D', 'E', 'F'][d]
}

/// The value of a hexadecimal digit of either case.
pub open spec fn digit_value(c: char) -> Option<int> {
    if '0' <= c <= '9' {
        Some(c as int - '0' as int)
    } else if 'A' <= c <= 'F' {
        Some(c as int - 'A' as int + 10)
    } else if 'a' <= c <= 'f' {
        Some(c as int - 'a' as int + 10)
    } else {
        None
    }
}

/// A letter from `a` to `z` in upper case, and any other character as it is.
pub open spec fn upper(c: char) -> char {
    if 'a' <= c <= 'z' {
        (c as int - 'a' as int + 'A' as int) as char
    } else {
        c
    }
}

/// `s` with its letters from `a` to `z` in upper case.
pub open spec fn upper_case(s: Seq<char>) -> Seq<char> {
    s.map_values(|c: char| upper(c))
}

/// The digits from `0` on stand for the numbers up to nine, the letters from `A`
/// and from `a` on for those from ten to fifteen, and nothing else is a digit.
pub proof fn law_hex_digit_values(c: char)
    ensures
        0x30 <= c as int <= 0x39 ==> digit_value(c) == Some(c as int - 0x30),
        0x41 <= c as int <= 0x46 ==> digit_value(c) == Some(c as int - 0x41 + 10),
        0x61 <= c as int <= 0x66 ==> digit_value(c) == Some(c as int - 0x61 + 10),
        digit_value(c) is Some ==> 0x30 <= c as int <= 0x39 || 0x41 <= c as int <= 0x46 || 0x61
            <= c as int <= 0x66,
{
}

/// A number up to nine is written as a digit from `0` on, and one from ten to
/// fifteen as a letter from `A` on.
pub proof fn law_hex_digits(d: int)
    requires
        0 <= d < 16,
    ensures
        d < 10 ==> digit(d) as int == 0x30 + d,
        d >= 10 ==> digit(d) as int == 0x41 + d - 10,
{
}

/// Upper case moves the letters from `a` to `z` and nothing else, and keeps every
/// character in its place.
pub proof fn law_upper_case(s: Seq<char>, i: int)
    requires
        0 <= i < s.len(),
    ensures
        upper_case(s).len() == s.len(),
        0x61 <= s[i] as int <= 0x7a ==> upper_case(s)[i] as int == s[i] as int - 0x20,
        !(0x61 <= s[i] as int <= 0x7a) ==> upper_case(s)[i] == s[i],
{
}

/// The value of a hexadecimal digit of either case.
pub fn value_of_digit(c: char) -> (res: Option<u8>)
    ensures
        match res {
            None => digit_value(c) is None,
            Some(d) => d < 16 && digit_value(c) == Some(d as int),
        },
{
    if '0' <= c && c <= '9' {
        Some((c as u32 - '0' as u32) as u8)
    } else if 'A' <= c && c <= 'F' {
        Some((c as u32 - 'A' as u32 + 10) as u8)
    } else if 'a' <= c && c <= 'f' {
        Some((c as u32 - 'a' as u32 + 10) as u8)
    } else {
        None
    }
}

/// A digit that is written has the value it was written for.
pub proof fn lemma_digit_value(d: int)
    requires
        0 <= d < 16,
    ensures
        digit_value(digit(d)) == Some(d),
{
}

/// What is written for the value of a digit is that digit, in upper case.
pub proof fn lemma_digit_is_upper(c: char)
    requires
        digit_value(c) is Some,
    ensures
        0 <= digit_value(c)->0 < 16,
        digit(digit_value(c)->0) == upper(c),
{
}

/// Writes the digit of the value `d`, below sixteen.
pub fn push_digit(out: &mut String, d: u8)
    requires
        d < 16,
    ensures
        final(out)@ == old(out)@.push(digit(d as int)),
{
    proof {
        reveal_strlit("0");
        reveal_strlit("1");
        reveal_strlit("2");
        reveal_strlit("3");
        reveal_strlit("4");
        reveal_strlit("5");
        reveal_strlit("6");
        reveal_strlit("7");
        reveal_strlit("8");
        reveal_strlit("9");
        reveal_strlit("A");
        reveal_strlit("B");
        reveal_strlit("C");
        reveal_strlit("D");
        reveal_strlit("E");
        reveal_strlit("F");
    }
    let text: &str = match d {
        0 => "0",
        1 => "1",
        2 => "2",
        3 => "3",
        4 => "4",
        5 => "5",
        6 => "6",
        7 => "7",
        8 => "8",
        9 => "9",
        10 => "A",
        11 => "B",
        12 => "C",
        13 => "D",
        14 => "E",
        _ => "F",
    };
    assert(text@ == seq![digit(d as int)]);
    out.append(text);
}

/// The decimal digits of `n`, without leading zeros.
pub open spec fn decimal(n: nat) -> Seq<char>
    decreases n,
{
    if n < 10 {
        seq![digit(n as int)]
    } else {
        decimal(n / 10).push(digit((n % 10) as int))
    }
}

/// Writes `n` in decimal.
pub fn push_decimal(out: &mut String, n: u32)
    ensures
        final(out)@ == old(out)@ + decimal(n as nat),
    decreases n,
{
    if n >= 10 {
        push_decimal(out, n / 10);
        push_digit(out, (n % 10) as u8);
    } else {
        push_digit(out, n as u8);
    }
}

/// Whether every character of `s` is a decimal digit.
pub open spec fn all_decimal(s: Seq<char>) -> bool {
    forall|i: int| 0 <= i < s.len() ==> '0' <= #[trigger] s[i] <= '9'
}

/// The number that decimal digits write.
pub open spec fn decimal_value(s: Seq<char>) -> nat
    decreases s.len(),
{
    if s.len() == 0 {
        0
    } else {
        10 * decimal_value(s.drop_last()) + (s.last() as nat - '0' as nat) as nat
    }
}

/// The last decimal digit of a number is its remainder by ten, and the digits
/// before it, if there are any, are those of the quotient.
pub proof fn law_decimal_digits(n: nat)
    ensures
        decimal(n).len() > 0,
        decimal(n).last() as int == 0x30 + n % 10,
        n < 10 ==> decimal(n).len() == 1,
        n >= 10 ==> decimal(n).drop_last() == decimal(n / 10),
{
    if n >= 10 {
        assert(decimal(n).drop_last() == decimal(n / 10));
    }
}

/// A digit more makes the number that decimal digits write ten times as large,
/// and adds its own value.
pub proof fn law_decimal_places(s: Seq<char>, c: char)
    requires
        0x30 <= c as int <= 0x39,
    ensures
        decimal_value(Seq::empty()) == 0,
        decimal_value(s.push(c)) == 10 * decimal_value(s) + (c as int - 0x30),
{
    assert(s.push(c).drop_last() == s);
}

/// The decimal digits of a number read back as that number.
pub proof fn lemma_decimal_reads_back(n: nat)
    ensures
        all_decimal(decimal(n)),
        decimal(n).len() > 0,
        decimal_value(decimal(n)) == n,
    decreases n,
{
    if n < 10 {
        let s = seq![digit(n as int)];
        assert(s.drop_last() == Seq::<char>::empty());
        assert(decimal_value(Seq::<char>::empty()) == 0);
        assert(s.last() == digit(n as int));
    } else {
        lemma_decimal_reads_back(n / 10);
        let s = decimal(n);
        assert(s.drop_last() == decimal(n / 10));
        assert(s.last() == digit((n % 10) as int));
    }
}

} // verus!
