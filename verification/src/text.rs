//! Text building over character sequences.
//!
//! Every message, statement and identifier the crate renders is described by a
//! `Seq<char>`; the functions here produce `String`s with exactly those characters.

use vstd::prelude::*;
use vstd::string::*;

verus! {

/// `String::push` appends one character to the end of the string and changes
/// nothing else.
pub assume_specification[ String::push ](string: &mut String, ch: char)
    ensures
        final(string)@ == old(string)@.push(ch),
;

/// The decimal digit with value `d`.
pub open spec fn digit(d: nat) -> char {
    (48 + d) as char
}

/// `n` in decimal, without leading zeros.
pub open spec fn decimal(n: nat) -> Seq<char>
    decreases n,
{
    if n < 10 {
        seq![digit(n)]
    } else {
        decimal(n / 10).push(digit(n % 10))
    }
}

/// `value` in decimal with at least `width` digits, padded with zeros on the left.
pub open spec fn padded_decimal(value: nat, width: nat) -> Seq<char> {
    let digits = decimal(value);
    if digits.len() >= width {
        digits
    } else {
        Seq::new((width - digits.len()) as nat, |i: int| '0') + digits
    }
}

/// The lower-case hexadecimal digit with value `d`.
pub open spec fn hex_digit(d: nat) -> char {
    if d < 10 {
        (48 + d) as char
    } else {
        (87 + d) as char
    }
}

/// The last `width` hexadecimal digits of `value`, most significant first.
pub open spec fn hex_fixed(value: nat, width: nat) -> Seq<char>
    decreases width,
{
    if width == 0 {
        Seq::empty()
    } else {
        hex_fixed(value / 16, (width - 1) as nat).push(hex_digit(value % 16))
    }
}

/// The parts in order with `separator` between neighbours.
pub open spec fn joined(parts: Seq<Seq<char>>, separator: Seq<char>) -> Seq<char>
    decreases parts.len(),
{
    if parts.len() == 0 {
        Seq::empty()
    } else if parts.len() == 1 {
        parts[0]
    } else {
        joined(parts.drop_last(), separator) + separator + parts.last()
    }
}

fn digit_char(d: u64) -> (c: char)
    requires
        d < 10,
    ensures
        c == digit(d as nat),
{
    match d {
        0 => '0',
        1 => '1',
        2 => '2',
        3 => '3',
        4 => '4',
        5 => '5',
        6 => '6',
        7 => '7',
        8 => '8',
        _ => '9',
    }
}

fn hex_digit_char(d: u64) -> (c: char)
    requires
        d < 16,
    ensures
        c == hex_digit(d as nat),
{
    match d {
        10 => 'a',
        11 => 'b',
        12 => 'c',
        13 => 'd',
        14 => 'e',
        15 => 'f',
        _ => digit_char(d),
    }
}

/// Appends `n` in decimal.
pub fn push_decimal(out: &mut String, n: u64)
    ensures
        final(out)@ == old(out)@ + decimal(n as nat),
    decreases n,
{
    if n >= 10 {
        push_decimal(out, n / 10);
    }
    out.push(digit_char(n % 10));
    assert(out@ == old(out)@ + decimal(n as nat));
}

/// Appends `n` in decimal with at least `width` digits.
pub fn push_padded_decimal(out: &mut String, n: u64, width: usize)
    ensures
        final(out)@ == old(out)@ + padded_decimal(n as nat, width as nat),
{
    let mut digits = String::new();
    push_decimal(&mut digits, n);
    assert(digits@ =~= decimal(n as nat));
    let length: usize = digits.as_str().unicode_len();
    let mut written: usize = length;
    let ghost before = out@;
    let ghost zero = |i: int| '0';
    assert(out@ =~= before + Seq::new(0, zero));
    while written < width
        invariant
            length <= written,
            written <= width || written == length,
            out@ == before + Seq::new((written - length) as nat, zero),
            zero == (|i: int| '0'),
        decreases width - written,
    {
        out.push('0');
        assert(Seq::new((written + 1 - length) as nat, zero) =~= Seq::new(
            (written - length) as nat,
            zero,
        ).push('0'));
        written += 1;
    }
    let ghost padding = out@;
    out.append(digits.as_str());
    assert(out@ =~= before + padded_decimal(n as nat, width as nat));
}

/// Appends `value` as `width` hexadecimal digits.
pub fn push_hex(out: &mut String, value: u64, width: usize)
    ensures
        final(out)@ == old(out)@ + hex_fixed(value as nat, width as nat),
    decreases width,
{
    if width > 0 {
        push_hex(out, value / 16, width - 1);
        out.push(hex_digit_char(value % 16));
    }
    assert(out@ == old(out)@ + hex_fixed(value as nat, width as nat));
}

/// The characters of `text`, in order.
pub fn characters(text: &str) -> (chars: Vec<char>)
    ensures
        chars@ == text@,
{
    let mut chars: Vec<char> = Vec::new();
    for c in it: text.chars()
        invariant
            it.seq() == text@,
            chars@ == it.seq().take(it.index()),
    {
        chars.push(c);
    }
    chars
}

/// Whether `left` and `right` hold the same characters.
pub fn same_chars(left: &Vec<char>, right: &Vec<char>) -> (same: bool)
    ensures
        same == (left@ == right@),
{
    if left.len() != right.len() {
        return false;
    }
    let mut i: usize = 0;
    while i < left.len()
        invariant
            i <= left.len(),
            left.len() == right.len(),
            forall|k: int| 0 <= k < i ==> left[k] == right[k],
        decreases left.len() - i,
    {
        if left[i] != right[i] {
            return false;
        }
        i += 1;
    }
    assert(left@ == right@);
    true
}

/// The number that decimal digits stand for.
pub open spec fn decimal_value(digits: Seq<char>) -> int
    decreases digits.len(),
{
    if digits.len() == 0 {
        0
    } else {
        10 * decimal_value(digits.drop_last()) + (digits.last() as int - 48)
    }
}

/// A number in decimal is written in digits, without zeros in front, and reads back as the
/// number.
pub proof fn decimals_read_back(n: nat)
    ensures
        decimal_value(decimal(n)) == n,
        decimal(n).len() > 0,
        forall|i: int| 0 <= i < decimal(n).len() ==> '0' <= #[trigger] decimal(n)[i] <= '9',
        n > 0 ==> decimal(n)[0] != '0',
    decreases n,
{
    if n < 10 {
        assert(decimal(n).drop_last() =~= Seq::empty());
        assert(decimal(n).last() as int == 48 + n);
        assert(decimal_value(Seq::empty()) == 0);
    } else {
        decimals_read_back(n / 10);
        let head = decimal(n / 10);
        assert(decimal(n).drop_last() =~= head);
        assert(decimal(n).last() as int == 48 + n % 10);
        assert(decimal(n)[0] == head[0]);
        assert forall|i: int| 0 <= i < decimal(n).len() implies '0' <= #[trigger] decimal(n)[i] <= '9' by {
            if i < head.len() {
                assert(decimal(n)[i] == head[i]);
            }
        }
    }
}

/// A padded number has at least the asked number of digits, is the number in decimal with
/// zeros in front, and is not longer than it has to be.
pub proof fn padding_is_zeros_in_front(value: nat, width: nat)
    ensures
        padded_decimal(value, width).len() >= width,
        padded_decimal(value, width).len() == width || padded_decimal(value, width) == decimal(value),
        ({
            let padding = padded_decimal(value, width).len() - decimal(value).len();
            &&& padding >= 0
            &&& padded_decimal(value, width).skip(padding) == decimal(value)
            &&& forall|i: int| 0 <= i < padding ==> #[trigger] padded_decimal(value, width)[i] == '0'
        }),
{
    let padding = padded_decimal(value, width).len() - decimal(value).len();
    assert(padded_decimal(value, width).skip(padding) =~= decimal(value));
}

/// The value of a lower-case hexadecimal digit.
pub open spec fn hex_digit_value(c: char) -> int {
    if '0' <= c <= '9' {
        c as int - '0' as int
    } else {
        c as int - 'a' as int + 10
    }
}

/// The number that hexadecimal digits stand for.
pub open spec fn hex_value(digits: Seq<char>) -> int
    decreases digits.len(),
{
    if digits.len() == 0 {
        0
    } else {
        16 * hex_value(digits.drop_last()) + hex_digit_value(digits.last())
    }
}

/// Hexadecimal digits are lower-case, as many as asked for, and read back as the number if
/// it has no more digits than that.
pub proof fn hex_digits_read_back(value: nat, width: nat)
    ensures
        hex_fixed(value, width).len() == width,
        forall|i: int|
            0 <= i < width ==> ('0' <= #[trigger] hex_fixed(value, width)[i] <= '9') || ('a'
                <= hex_fixed(value, width)[i] <= 'f'),
        hex_value(hex_fixed(value, width)) == value as int % vstd::arithmetic::power::pow(16, width),
    decreases width,
{
    if width == 0 {
        vstd::arithmetic::power::lemma_pow0(16);
    } else {
        let rest = (width - 1) as nat;
        hex_digits_read_back(value / 16, rest);
        let head = hex_fixed(value / 16, rest);
        assert(hex_fixed(value, width).drop_last() =~= head);
        assert(hex_digit_value(hex_digit(value % 16)) == value % 16);
        assert forall|i: int| 0 <= i < width implies ('0' <= #[trigger] hex_fixed(value, width)[i] <= '9')
            || ('a' <= hex_fixed(value, width)[i] <= 'f') by {
            if i < rest {
                assert(hex_fixed(value, width)[i] == head[i]);
            }
        }
        vstd::arithmetic::power::lemma_pow_positive(16, rest);
        let base = vstd::arithmetic::power::pow(16, rest);
        assert(vstd::arithmetic::power::pow(16, width) == 16 * base) by {
            reveal(vstd::arithmetic::power::pow);
        }
        vstd::arithmetic::div_mod::lemma_breakdown(value as int, 16, base);
    }
}

/// A list is told part by part, in order, with the separator between any two.
pub proof fn lists_are_joined_in_order(parts: Seq<Seq<char>>, part: Seq<char>, separator: Seq<char>)
    ensures
        joined(Seq::empty(), separator).len() == 0,
        joined(seq![part], separator) == part,
        parts.len() > 0 ==> joined(parts.push(part), separator) == joined(parts, separator) + separator
            + part,
{
    assert(parts.push(part).drop_last() =~= parts);
}

} // verus!
