//! Number formatting for the dump and trace lines: upper-case hexadecimal of a
//! fixed width, and decimal padded with blanks on the left.

use vstd::prelude::*;
use vstd::string::*;

verus! {

/// The character of a digit below sixteen, upper case.
pub open spec fn digit_char(d: int) -> char {
    if d == 0 {
        '0'
    } else if d == 1 {
        '1'
    } else if d == 2 {
        '2'
    } else if d == 3 {
        '3'
    } else if d == 4 {
        '4'
    } else if d == 5 {
        '5'
    } else if d == 6 {
        '6'
    } else if d == 7 {
        '7'
    } else if d == 8 {
        '8'
    } else if d == 9 {
        '9'
    } else if d == 10 {
        'A'
    } else if d == 11 {
        'B'
    } else if d == 12 {
        'C'
    } else if d == 13 {
        'D'
    } else if d == 14 {
        'E'
    } else {
        'F'
    }
}

/// The value of an upper-case hexadecimal digit; sixteen for any other character.
pub open spec fn digit_value(c: char) -> int {
    if c == '0' {
        0
    } else if c == '1' {
        1
    } else if c == '2' {
        2
    } else if c == '3' {
        3
    } else if c == '4' {
        4
    } else if c == '5' {
        5
    } else if c == '6' {
        6
    } else if c == '7' {
        7
    } else if c == '8' {
        8
    } else if c == '9' {
        9
    } else if c == 'A' {
        10
    } else if c == 'B' {
        11
    } else if c == 'C' {
        12
    } else if c == 'D' {
        13
    } else if c == 'E' {
        14
    } else if c == 'F' {
        15
    } else {
        16
    }
}

/// The last `width` hexadecimal digits of `value`, most significant first,
/// with leading zeros.
pub open spec fn hex(value: nat, width: nat) -> Seq<char>
    decreases width,
{
    if width == 0 {
        Seq::empty()
    } else {
        hex(value / 16, (width - 1) as nat).push(digit_char((value % 16) as int))
    }
}

/// The decimal digits of `value`, most significant first, without leading zeros.
pub open spec fn decimal(value: nat) -> Seq<char>
    decreases value,
{
    if value < 10 {
        seq![digit_char(value as int)]
    } else {
        decimal(value / 10).push(digit_char((value % 10) as int))
    }
}

/// `count` blanks.
pub open spec fn blanks(count: nat) -> Seq<char> {
    Seq::new(count, |i: int| ' ')
}

/// `text` moved to the right edge of a field of `width` characters; a text
/// that is wider than the field stands as it is.
pub open spec fn pad_left(text: Seq<char>, width: nat) -> Seq<char> {
    if text.len() >= width {
        text
    } else {
        blanks((width - text.len()) as nat) + text
    }
}

/// The number that a text of hexadecimal digits denotes, most significant
/// digit first.
pub open spec fn hex_value(text: Seq<char>) -> nat
    decreases text.len(),
{
    if text.len() == 0 {
        0
    } else {
        (hex_value(text.drop_last()) * 16 + digit_value(text.last())) as nat
    }
}

/// Sixteen to the power of `width`.
pub open spec fn pow16(width: nat) -> nat
    decreases width,
{
    if width == 0 {
        1
    } else {
        16 * pow16((width - 1) as nat)
    }
}

/// Reading a digit back gives its value.
pub proof fn lemma_digit_round_trip(d: int)
    requires
        0 <= d < 16,
    ensures
        digit_value(digit_char(d)) == d,
{
}

/// A hexadecimal text of a given width has that many characters.
pub proof fn lemma_hex_len(value: nat, width: nat)
    ensures
        hex(value, width).len() == width,
    decreases width,
{
    if width > 0 {
        lemma_hex_len(value / 16, (width - 1) as nat);
    }
}

/// Reading a hexadecimal text back gives the number, as far as the width holds it.
pub proof fn lemma_hex_round_trip(value: nat, width: nat)
    ensures
        hex_value(hex(value, width)) == value % pow16(width),
    decreases width,
{
    if width > 0 {
        let rest = hex(value / 16, (width - 1) as nat);
        let high = pow16((width - 1) as nat);
        lemma_hex_round_trip(value / 16, (width - 1) as nat);
        lemma_digit_round_trip((value % 16) as int);
        assert(hex(value, width).drop_last() =~= rest);
        lemma_pow16_positive((width - 1) as nat);
        vstd::arithmetic::div_mod::lemma_mod_breakdown(value as int, 16, high as int);
    }
}

/// A power of sixteen is positive.
pub proof fn lemma_pow16_positive(width: nat)
    ensures
        pow16(width) > 0,
    decreases width,
{
    if width > 0 {
        lemma_pow16_positive((width - 1) as nat);
    }
}

/// The text of one digit.
fn digit_str(d: u8) -> (s: &'static str)
    requires
        d < 16,
    ensures
        s@ == seq![digit_char(d as int)],
{
    proof {
        reveal_strlit("0");
        reveal_strlit("1");
        reveal_strlit("2");
        reveal_strlit("3");
        reveal_strlit("4");
        reveal_strlit("5");
        reveal_strlit("6");
        reveal_strlit("7");
        reveal_strlit("8");
        reveal_strlit("9");
        reveal_strlit("A");
        reveal_strlit("B");
        reveal_strlit("C");
        reveal_strlit("D");
        reveal_strlit("E");
        reveal_strlit("F");
    }
    if d == 0 {
        "0"
    } else if d == 1 {
        "1"
    } else if d == 2 {
        "2"
    } else if d == 3 {
        "3"
    } else if d == 4 {
        "4"
    } else if d == 5 {
        "5"
    } else if d == 6 {
        "6"
    } else if d == 7 {
        "7"
    } else if d == 8 {
        "8"
    } else if d == 9 {
        "9"
    } else if d == 10 {
        "A"
    } else if d == 11 {
        "B"
    } else if d == 12 {
        "C"
    } else if d == 13 {
        "D"
    } else if d == 14 {
        "E"
    } else {
        "F"
    }
}

/// Appends the last `width` hexadecimal digits of `value` to `out`.
pub(crate) fn push_hex(out: &mut String, value: u32, width: u8)
    ensures
        final(out)@ == old(out)@ + hex(value as nat, width as nat),
    decreases width,
{
    if width > 0 {
        push_hex(out, value / 16, width - 1);
        let d: u8 = (value % 16) as u8;
        out.append(digit_str(d));
    }
}

/// Appends the decimal digits of `value` to `out`.
pub(crate) fn push_decimal(out: &mut String, value: usize)
    ensures
        final(out)@ == old(out)@ + decimal(value as nat),
    decreases value,
{
    if value >= 10 {
        push_decimal(out, value / 10);
    }
    let d: u8 = (value % 10) as u8;
    out.append(digit_str(d));
}

/// The number of decimal digits of `value`.
pub(crate) fn decimal_len(value: usize) -> (len: usize)
    ensures
        len == decimal(value as nat).len(),
        1 <= len <= 20,
{
    let mut len: usize = 1;
    let mut rest: usize = value;
    proof {
        lemma_decimal_len_bound(value as nat);
    }
    while rest >= 10
        invariant
            1 <= len,
            len + decimal(rest as nat).len() == decimal(value as nat).len() + 1,
            decimal(value as nat).len() <= 20,
        decreases rest,
    {
        rest = rest / 10;
        len = len + 1;
    }
    len
}

/// A number below `10^k` has at most `k` digits; a `usize` has at most twenty.
proof fn lemma_decimal_len_bound(value: nat)
    requires
        value <= usize::MAX,
    ensures
        1 <= decimal(value).len() <= 20,
{
    assert(pow10(20) == 100_000_000_000_000_000_000) by {
        reveal_with_fuel(pow10, 21);
    }
    lemma_decimal_len_below(value, 20);
}

/// Ten to the power of `k`.
pub open spec fn pow10(k: nat) -> nat
    decreases k,
{
    if k == 0 {
        1
    } else {
        10 * pow10((k - 1) as nat)
    }
}

/// A number below `10^k`, with `k` at least one, has between one and `k` digits.
pub proof fn lemma_decimal_len_below(value: nat, k: nat)
    requires
        k >= 1,
        value < pow10(k),
    ensures
        1 <= decimal(value).len() <= k,
    decreases k,
{
    if value >= 10 {
        assert(pow10(1) == 10) by {
            assert(pow10(0) == 1);
        }
        lemma_decimal_len_below(value / 10, (k - 1) as nat);
    }
}

/// Appends `value` in decimal, moved to the right edge of a field of `width`
/// characters, to `out`.
pub(crate) fn push_decimal_padded(out: &mut String, value: usize, width: usize)
    ensures
        final(out)@ == old(out)@ + pad_left(decimal(value as nat), width as nat),
{
    let len = decimal_len(value);
    let mut written: usize = len;
    while written < width
        invariant
            len <= written,
            written == len || written <= width,
            out@ =~= old(out)@ + blanks((written - len) as nat),
        decreases width - written,
    {
        out.append(" ");
        proof {
            reveal_strlit(" ");
        }
        written = written + 1;
    }
    push_decimal(out, value);
}

} // verus!
