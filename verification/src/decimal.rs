//! Integers written in decimal.

use vstd::prelude::*;

verus! {

/// The character for the digit `d`.
pub open spec fn digit_char(d: nat) -> char
    recommends
        d < 10,
{
    ('0' as nat + d) as char
}

/// `n` in decimal: no sign, and no leading zeros but for zero itself.
pub open spec fn decimal_nat(n: nat) -> Seq<char>
    decreases n,
{
    if n < 10 {
        seq![digit_char(n)]
    } else {
        decimal_nat(n / 10).push(digit_char(n % 10))
    }
}

/// `i` in decimal: a minus sign before the digits of a negative number, no
/// sign otherwise.
pub open spec fn decimal_int(i: int) -> Seq<char> {
    if i < 0 {
        seq!['-'] + decimal_nat((-i) as nat)
    } else {
        decimal_nat(i as nat)
    }
}

/// The text of one digit.
fn digit_text(d: u64) -> (text: &'static str)
    requires
        d < 10,
    ensures
        text@ == seq![digit_char(d as nat)],
{
    proof {
        reveal_strlit("0");
        reveal_strlit("1");
        reveal_strlit("2");
        reveal_strlit("3");
        reveal_strlit("4");
        reveal_strlit("5");
        reveal_strlit("6");
        reveal_strlit("7");
        reveal_strlit("8");
        reveal_strlit("9");
    }
    let text = if d == 0 {
        "0"
    } else if d == 1 {
        "1"
    } else if d == 2 {
        "2"
    } else if d == 3 {
        "3"
    } else if d == 4 {
        "4"
    } else if d == 5 {
        "5"
    } else if d == 6 {
        "6"
    } else if d == 7 {
        "7"
    } else if d == 8 {
        "8"
    } else {
        "9"
    };
    text
}

/// Writes `n` in decimal.
pub fn decimal_u64(n: u64) -> (text: String)
    ensures
        text@ == decimal_nat(n as nat),
    decreases n,
{
    if n < 10 {
        String::from_str(digit_text(n))
    } else {
        let mut text = decimal_u64(n / 10);
        text.append(digit_text(n % 10));
        text
    }
}

/// Writes `i` in decimal.
pub fn decimal_i64(i: i64) -> (text: String)
    ensures
        text@ == decimal_int(i as int),
{
    if i < 0 {
        // One is added before the sign is turned, so that the least number
        // of all has room.
        let size: u64 = (-(i + 1)) as u64 + 1;
        let mut text = String::from_str("-");
        text.append(decimal_u64(size).as_str());
        proof {
            reveal_strlit("-");
        }
        text
    } else {
        decimal_u64(i as u64)
    }
}

/// A number in decimal is made of digits, and of a minus sign where it is
/// negative: no other character occurs in it.
pub proof fn lemma_decimal_alphabet(i: int)
    ensures
        decimal_int(i).len() > 0,
        forall|p: int|
            0 <= p < decimal_int(i).len() ==> '0' <= #[trigger] decimal_int(i)[p] <= '9'
                || decimal_int(i)[p] == '-',
{
    let size: nat = if i < 0 {
        (-i) as nat
    } else {
        i as nat
    };
    lemma_decimal_digits(size);
}

/// A natural number in decimal is made of digits alone.
pub proof fn lemma_decimal_digits(n: nat)
    ensures
        decimal_nat(n).len() > 0,
        forall|p: int| 0 <= p < decimal_nat(n).len() ==> '0' <= #[trigger] decimal_nat(n)[p] <= '9',
    decreases n,
{
    if n >= 10 {
        lemma_decimal_digits(n / 10);
    }
}

} // verus!
