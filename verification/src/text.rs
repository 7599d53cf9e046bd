//! Decimal numerals: how a number is written and how a numeral is read.

use vstd::prelude::*;
use vstd::string::StrSliceExecFns;

verus! {

/// The character that writes the digit `d`; meaningful for `d < 10`.
pub open spec fn digit_char(d: nat) -> char {
    ('0' as u8 + d) as char
}

/// The decimal numeral of `n`: most significant digit first, no sign, no
/// leading zero, and `"0"` for zero.
pub open spec fn decimal(n: nat) -> Seq<char>
    decreases n,
{
    if n < 10 {
        seq![digit_char(n)]
    } else {
        decimal(n / 10).push(digit_char(n % 10))
    }
}

/// The one-character text of the digit `d`.
fn digit_str(d: usize) -> (text: &'static str)
    requires
        d < 10,
    ensures
        text@ == seq![digit_char(d as nat)],
{
    proof {
        reveal_strlit("0123456789");
    }
    let text: &'static str = "0123456789".substring_ascii(d, d + 1);
    text
}

/// Appends the decimal numeral of `n` to `out`.
pub fn push_decimal(out: &mut String, n: usize)
    ensures
        final(out)@ == old(out)@ + decimal(n as nat),
    decreases n,
{
    if n >= 10 {
        push_decimal(out, n / 10);
    }
    out.append(digit_str(n % 10));
}

/// Whether `c` is one of the ten digits.
pub open spec fn is_digit(c: char) -> bool {
    '0' <= c && c <= '9'
}

/// The number that the digit `c` writes; meaningful where `is_digit(c)`.
pub open spec fn digit_value(c: char) -> nat {
    (c as int - '0' as int) as nat
}

/// Whether `s` is a numeral: one digit or more, and nothing but digits.
/// Leading zeros are numerals too.
pub open spec fn is_numeral(s: Seq<char>) -> bool {
    s.len() > 0 && forall|i: int| 0 <= i < s.len() ==> is_digit(#[trigger] s[i])
}

/// The number that the digits of `s` write in base ten, as large as it may
/// be; zero for the empty text.
pub open spec fn numeral_value(s: Seq<char>) -> nat
    decreases s.len(),
{
    if s.len() == 0 {
        0
    } else {
        numeral_value(s.drop_last()) * 10 + digit_value(s.last())
    }
}

/// Reading undoes writing: the decimal numeral of `n` is a numeral, and the
/// number it writes is `n`.
pub proof fn lemma_numeral_of_decimal(n: nat)
    ensures
        is_numeral(decimal(n)),
        numeral_value(decimal(n)) == n,
    decreases n,
{
    let s = decimal(n);
    if n < 10 {
        assert(numeral_value(s.drop_last()) == 0);
    } else {
        lemma_numeral_of_decimal(n / 10);
        assert(s.drop_last() =~= decimal(n / 10));
    }
}

} // verus!
