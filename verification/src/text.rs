//! Numbers written as text: decimal, and fixed-width hexadecimal.

use vstd::prelude::*;
use vstd::string::*;

verus! {

/// The character that stands for the digit `d`, in upper case beyond nine.
pub open spec fn digit_char(d: nat) -> char {
    if d < 10 {
        (('0' as nat) + d) as char
    } else {
        (('A' as nat) + (d - 10)) as char
    }
}

/// The decimal digits of `n`, most significant first, without leading zeros.
pub open spec fn decimal_digits(n: nat) -> Seq<char>
    decreases n,
{
    if n < 10 {
        seq![digit_char(n)]
    } else {
        decimal_digits(n / 10).push(digit_char(n % 10))
    }
}

/// The last `width` decimal digits of `n`, padded with zeros on the left.
pub open spec fn padded_decimal(n: nat, width: nat) -> Seq<char>
    decreases width,
{
    if width == 0 {
        Seq::empty()
    } else {
        padded_decimal(n / 10, (width - 1) as nat).push(digit_char(n % 10))
    }
}

/// The last `width` hexadecimal digits of `n`, padded with zeros on the left.
pub open spec fn padded_hex(n: nat, width: nat) -> Seq<char>
    decreases width,
{
    if width == 0 {
        Seq::empty()
    } else {
        padded_hex(n / 16, (width - 1) as nat).push(digit_char(n % 16))
    }
}

/// Ten to the power of `n`.
pub open spec fn pow10(n: nat) -> nat
    decreases n,
{
    if n == 0 {
        1
    } else {
        10 * pow10((n - 1) as nat)
    }
}

/// The one-character text of the digit `d`.
fn digit(d: u64) -> (r: &'static str)
    requires
        d < 16,
    ensures
        r@ == seq![digit_char(d as nat)],
{
    proof {
        reveal_strlit("0");
        reveal_strlit("1");
        reveal_strlit("2");
        reveal_strlit("3");
        reveal_strlit("4");
        reveal_strlit("5");
        reveal_strlit("6");
        reveal_strlit("7");
        reveal_strlit("8");
        reveal_strlit("9");
        reveal_strlit("A");
        reveal_strlit("B");
        reveal_strlit("C");
        reveal_strlit("D");
        reveal_strlit("E");
        reveal_strlit("F");
    }
    match d {
        0 => "0",
        1 => "1",
        2 => "2",
        3 => "3",
        4 => "4",
        5 => "5",
        6 => "6",
        7 => "7",
        8 => "8",
        9 => "9",
        10 => "A",
        11 => "B",
        12 => "C",
        13 => "D",
        14 => "E",
        _ => "F",
    }
}

/// `n` in decimal.
pub fn decimal(n: u64) -> (r: String)
    ensures
        r@ == decimal_digits(n as nat),
    decreases n,
{
    let mut text = if n < 10 {
        String::new()
    } else {
        decimal(n / 10)
    };
    text.append(digit(n % 10));
    text
}

/// The lowest `width` hexadecimal digits of `n`, in upper case.
fn hex(n: u64, width: u64) -> (r: String)
    ensures
        r@ == padded_hex(n as nat, width as nat),
    decreases width,
{
    if width == 0 {
        String::new()
    } else {
        let mut text = hex(n / 16, width - 1);
        text.append(digit(n % 16));
        text
    }
}

/// `n` as eight hexadecimal digits in upper case.
pub fn hex_word(n: u32) -> (r: String)
    ensures
        r@ == padded_hex(n as nat, 8),
{
    hex(n as u64, 8)
}

/// Different digits have different characters.
proof fn lemma_digit_char_injective(a: nat, b: nat)
    requires
        a < 10,
        b < 10,
        digit_char(a) == digit_char(b),
    ensures
        a == b,
{
}

/// A padded number has the width that it is padded to.
pub proof fn lemma_padded_decimal_len(n: nat, width: nat)
    ensures
        padded_decimal(n, width).len() == width,
    decreases width,
{
    if width > 0 {
        lemma_padded_decimal_len(n / 10, (width - 1) as nat);
    }
}

/// The text of a number that needs no more digits than `width` tells which number it is.
pub proof fn lemma_padded_decimal_injective(a: nat, b: nat, width: nat)
    requires
        a < pow10(width),
        b < pow10(width),
        padded_decimal(a, width) == padded_decimal(b, width),
    ensures
        a == b,
    decreases width,
{
    if width > 0 {
        let lower = (width - 1) as nat;
        let x = padded_decimal(a, width);
        let y = padded_decimal(b, width);
        assert(x.last() == y.last());
        lemma_digit_char_injective(a % 10, b % 10);
        assert(x.drop_last() =~= padded_decimal(a / 10, lower));
        assert(y.drop_last() =~= padded_decimal(b / 10, lower));
        lemma_padded_decimal_injective(a / 10, b / 10, lower);
    }
}

/// A number from ten to the power of `width - 1` on has `width` digits at least.
pub proof fn lemma_decimal_len(n: nat, width: nat)
    requires
        width > 0,
        n >= pow10((width - 1) as nat),
    ensures
        decimal_digits(n).len() >= width,
    decreases width,
{
    if width > 1 {
        let lower = (width - 1) as nat;
        assert(pow10(lower) == 10 * pow10((lower - 1) as nat));
        assert(pow10((lower - 1) as nat) >= 1) by {
            lemma_pow10_positive((lower - 1) as nat);
        }
        lemma_decimal_len(n / 10, lower);
    }
}

proof fn lemma_pow10_positive(n: nat)
    ensures
        pow10(n) >= 1,
    decreases n,
{
    if n > 0 {
        lemma_pow10_positive((n - 1) as nat);
    }
}

/// The decimal text of a number tells which number it is.
pub proof fn lemma_decimal_injective(a: nat, b: nat)
    requires
        decimal_digits(a) == decimal_digits(b),
    ensures
        a == b,
    decreases a,
{
    let x = decimal_digits(a);
    let y = decimal_digits(b);
    assert(x.last() == digit_char(a % 10));
    assert(y.last() == digit_char(b % 10));
    lemma_digit_char_injective(a % 10, b % 10);
    if a >= 10 {
        reveal_with_fuel(pow10, 2);
        lemma_decimal_len(a, 2);
        assert(b >= 10);
        assert(x.drop_last() =~= decimal_digits(a / 10));
        assert(y.drop_last() =~= decimal_digits(b / 10));
        lemma_decimal_injective(a / 10, b / 10);
    } else if b >= 10 {
        reveal_with_fuel(pow10, 2);
        lemma_decimal_len(b, 2);
    }
}

/// The value of a digit: `0` to `9`, then `A` to `F`.
pub open spec fn digit_value(c: char) -> int {
    if c <= '9' {
        c as int - '0' as int
    } else {
        c as int - 'A' as int + 10
    }
}

/// Whether every character is a decimal digit.
pub open spec fn all_decimal(text: Seq<char>) -> bool {
    forall|i: int| 0 <= i < text.len() ==> '0' <= #[trigger] text[i] <= '9'
}

/// The number that digits in `base` write, most significant first.
pub open spec fn read_number(text: Seq<char>, base: int) -> int
    decreases text.len(),
{
    if text.len() == 0 {
        0
    } else {
        base * read_number(text.drop_last(), base) + digit_value(text.last())
    }
}

/// Decimal text reads back as the number: nothing but digits, without a leading zero unless it is
/// all there is.
pub proof fn law_decimal_reads_back(n: nat)
    ensures
        read_number(decimal_digits(n), 10) == n,
        all_decimal(decimal_digits(n)),
        decimal_digits(n).len() >= 1,
        decimal_digits(n).len() > 1 ==> decimal_digits(n)[0] != '0',
    decreases n,
{
    let text = decimal_digits(n);
    if n < 10 {
        assert(text.drop_last() =~= Seq::empty());
        assert(read_number(text.drop_last(), 10) == 0);
    } else {
        law_decimal_reads_back(n / 10);
        let rest = decimal_digits(n / 10);
        assert(text.drop_last() =~= rest);
        assert(text[0] == rest[0]);
        if n / 10 < 10 {
            assert(rest[0] == digit_char(n / 10));
        } else {
            law_decimal_reads_back(n / 10 / 10);
            assert(rest.len() > 1);
        }
    }
}

/// Padded decimal text has the width asked for, is nothing but digits, and reads back as the
/// number where that has no more digits.
pub proof fn law_padded_decimal_reads_back(n: nat, width: nat)
    ensures
        padded_decimal(n, width).len() == width,
        all_decimal(padded_decimal(n, width)),
        n < pow10(width) ==> read_number(padded_decimal(n, width), 10) == n,
    decreases width,
{
    if width > 0 {
        let lower = (width - 1) as nat;
        law_padded_decimal_reads_back(n / 10, lower);
        assert(padded_decimal(n, width).drop_last() =~= padded_decimal(n / 10, lower));
    }
}

/// Sixteen to the power of `n`.
spec fn pow16(n: nat) -> nat
    decreases n,
{
    if n == 0 {
        1
    } else {
        16 * pow16((n - 1) as nat)
    }
}

proof fn lemma_padded_hex(n: nat, width: nat)
    ensures
        padded_hex(n, width).len() == width,
        forall|i: int|
            0 <= i < width ==> '0' <= #[trigger] padded_hex(n, width)[i] <= '9' || 'A'
                <= padded_hex(n, width)[i] <= 'F',
        n < pow16(width) ==> read_number(padded_hex(n, width), 16) == n,
    decreases width,
{
    if width > 0 {
        let lower = (width - 1) as nat;
        lemma_padded_hex(n / 16, lower);
        assert(padded_hex(n, width).drop_last() =~= padded_hex(n / 16, lower));
        assert forall|i: int| 0 <= i < width implies '0' <= #[trigger] padded_hex(n, width)[i]
            <= '9' || 'A' <= padded_hex(n, width)[i] <= 'F' by {
            if i < lower {
                assert(padded_hex(n, width)[i] == padded_hex(n / 16, lower)[i]);
            }
        }
    }
}

/// The hexadecimal text of a word is eight digits in upper case, and reads back as the word.
pub proof fn law_hex_word_reads_back(n: u32)
    ensures
        padded_hex(n as nat, 8).len() == 8,
        forall|i: int|
            0 <= i < 8 ==> '0' <= #[trigger] padded_hex(n as nat, 8)[i] <= '9' || 'A'
                <= padded_hex(n as nat, 8)[i] <= 'F',
        read_number(padded_hex(n as nat, 8), 16) == n,
{
    reveal_with_fuel(pow16, 9);
    lemma_padded_hex(n as nat, 8);
}

} // verus!
