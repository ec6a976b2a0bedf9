//! Integers written in decimal, and decimal digits read back.

use vstd::prelude::*;
use vstd::string::StringExecFns;

verus! {

/// Whether the character is a decimal digit.
pub open spec fn is_digit(c: char) -> bool {
    '0' <= c && c <= '9'
}

/// The character that stands for a number below ten.
pub open spec fn digit_char(d: int) -> char
    recommends
        0 <= d < 10,
{
    ('0' as int + d) as char
}

/// The number that a decimal digit stands for.
pub open spec fn digit_value(c: char) -> nat {
    if is_digit(c) {
        (c as int - '0' as int) as nat
    } else {
        0
    }
}

/// A natural number in decimal: no sign, no leading zero, `0` for zero.
pub open spec fn nat_text(n: nat) -> Seq<char>
    decreases n,
{
    if n < 10 {
        seq![digit_char(n as int)]
    } else {
        nat_text(n / 10).push(digit_char((n % 10) as int))
    }
}

/// An integer in decimal: a minus sign before the magnitude of a negative
/// number.
pub open spec fn int_text(i: int) -> Seq<char> {
    if i < 0 {
        seq!['-'] + nat_text((-i) as nat)
    } else {
        nat_text(i as nat)
    }
}

/// The number that a run of decimal digits stands for.
pub open spec fn digits_value(digits: Seq<char>) -> nat
    decreases digits.len(),
{
    if digits.len() == 0 {
        0
    } else {
        digits_value(digits.drop_last()) * 10 + digit_value(digits.last())
    }
}

/// What is written can be read back: the decimal text of a number holds
/// digits only, begins with `0` only where the number is zero, and stands
/// for that number.
pub proof fn law_nat_text_reads_back(n: nat)
    ensures
        nat_text(n).len() >= 1,
        forall|i: int| 0 <= i < nat_text(n).len() ==> is_digit(#[trigger] nat_text(n)[i]),
        nat_text(n)[0] == '0' <==> n == 0,
        digits_value(nat_text(n)) == n,
    decreases n,
{
    if n < 10 {
        assert(nat_text(n).drop_last() == Seq::<char>::empty());
        assert(digits_value(nat_text(n)) == digits_value(Seq::<char>::empty()) * 10 + digit_value(
            digit_char(n as int),
        ));
    } else {
        law_nat_text_reads_back(n / 10);
        assert(nat_text(n).drop_last() == nat_text(n / 10));
    }
}

/// A run of digits stands for at least as much as any of its beginnings.
pub proof fn lemma_digits_value_grows(digits: Seq<char>, k: int)
    requires
        0 <= k <= digits.len(),
    ensures
        digits_value(digits.take(k)) <= digits_value(digits),
    decreases digits.len(),
{
    if k < digits.len() {
        lemma_digits_value_grows(digits.drop_last(), k);
        assert(digits.drop_last().take(k) == digits.take(k));
    } else {
        assert(digits.take(k) == digits);
    }
}

/// The digit that stands for a number below ten.
fn digit(d: u64) -> (c: char)
    requires
        d < 10,
    ensures
        c == digit_char(d as int),
{
    (d as u8 + 48u8) as char
}

/// Writes an unsigned integer in decimal.
pub fn unsigned_to_string(n: u64) -> (s: String)
    ensures
        s@ == nat_text(n as nat),
    decreases n,
{
    let mut s = if n < 10 {
        String::new()
    } else {
        unsigned_to_string(n / 10)
    };
    s.push(digit(n % 10));
    s
}

/// Writes a signed integer in decimal.
pub fn signed_to_string(n: i64) -> (s: String)
    ensures
        s@ == int_text(n as int),
{
    if n < 0 {
        let magnitude: u64 = if n == i64::MIN {
            9223372036854775808u64
        } else {
            (-n) as u64
        };
        let digits = unsigned_to_string(magnitude);
        let mut s = String::new();
        s.push('-');
        s.append(digits.as_str());
        s
    } else {
        unsigned_to_string(n as u64)
    }
}

} // verus!
