//! Decimal notation for the numbers that are handed to the helper.

use vstd::prelude::*;
use vstd::string::*;

verus! {

/// The character that stands for a single decimal digit.
pub open spec fn digit_char(d: nat) -> char
    recommends
        d < 10,
{
    if d == 0 {
        '0'
    } else if d == 1 {
        '1'
    } else if d == 2 {
        '2'
    } else if d == 3 {
        '3'
    } else if d == 4 {
        '4'
    } else if d == 5 {
        '5'
    } else if d == 6 {
        '6'
    } else if d == 7 {
        '7'
    } else if d == 8 {
        '8'
    } else {
        '9'
    }
}

/// The digit that a character stands for; characters that are no digit count as zero.
pub open spec fn digit_value(c: char) -> nat {
    if c == '1' {
        1
    } else if c == '2' {
        2
    } else if c == '3' {
        3
    } else if c == '4' {
        4
    } else if c == '5' {
        5
    } else if c == '6' {
        6
    } else if c == '7' {
        7
    } else if c == '8' {
        8
    } else if c == '9' {
        9
    } else {
        0
    }
}

pub open spec fn is_digit(c: char) -> bool {
    '0' <= c && c <= '9'
}

/// A number in decimal notation: most significant digit first, no sign, no
/// padding, and the single digit `0` for zero.
pub open spec fn decimal_text(n: nat) -> Seq<char>
    decreases n,
{
    if n < 10 {
        seq![digit_char(n)]
    } else {
        decimal_text(n / 10).push(digit_char(n % 10))
    }
}

/// The number that a run of digits denotes, read most significant digit first.
pub open spec fn decimal_value(text: Seq<char>) -> nat
    decreases text.len(),
{
    if text.len() == 0 {
        0
    } else {
        decimal_value(text.drop_last()) * 10 + digit_value(text.last())
    }
}

/// Decimal notation is never empty, holds digits only, and starts with `0`
/// for zero alone.
pub proof fn lemma_decimal_text_shape(n: nat)
    ensures
        decimal_text(n).len() >= 1,
        forall|i: int| 0 <= i < decimal_text(n).len() ==> is_digit(#[trigger] decimal_text(n)[i]),
        decimal_text(n)[0] == '0' <==> n == 0,
    decreases n,
{
    if n >= 10 {
        lemma_decimal_text_shape(n / 10);
    }
}

/// Reading back what was written gives the number again, so two numbers
/// never share a notation.
pub proof fn lemma_decimal_value_of_text(n: nat)
    ensures
        decimal_value(decimal_text(n)) == n,
    decreases n,
{
    if n < 10 {
        let t = decimal_text(n);
        assert(t.drop_last().len() == 0);
        assert(decimal_value(t.drop_last()) == 0);
        assert(t.last() == digit_char(n));
    } else {
        lemma_decimal_value_of_text(n / 10);
        let t = decimal_text(n);
        assert(t.drop_last() =~= decimal_text(n / 10));
        assert(t.last() == digit_char(n % 10));
    }
}

/// Distinct numbers have distinct notations.
pub proof fn lemma_decimal_text_injective(a: nat, b: nat)
    requires
        decimal_text(a) == decimal_text(b),
    ensures
        a == b,
{
    lemma_decimal_value_of_text(a);
    lemma_decimal_value_of_text(b);
}

/// The one-character text for a digit.
fn digit_text(d: u32) -> (text: &'static str)
    requires
        d < 10,
    ensures
        text@ == seq![digit_char(d as nat)],
{
    proof {
        reveal_strlit("0");
        reveal_strlit("1");
        reveal_strlit("2");
        reveal_strlit("3");
        reveal_strlit("4");
        reveal_strlit("5");
        reveal_strlit("6");
        reveal_strlit("7");
        reveal_strlit("8");
        reveal_strlit("9");
    }
    let text: &'static str = if d == 0 {
        "0"
    } else if d == 1 {
        "1"
    } else if d == 2 {
        "2"
    } else if d == 3 {
        "3"
    } else if d == 4 {
        "4"
    } else if d == 5 {
        "5"
    } else if d == 6 {
        "6"
    } else if d == 7 {
        "7"
    } else if d == 8 {
        "8"
    } else {
        "9"
    };
    assert(text@ =~= seq![digit_char(d as nat)]);
    text
}

/// Writes a number in decimal notation.
pub fn decimal_string(n: u32) -> (text: String)
    ensures
        text@ == decimal_text(n as nat),
    decreases n,
{
    if n < 10 {
        String::from_str(digit_text(n))
    } else {
        let mut text = decimal_string(n / 10);
        text.append(digit_text(n % 10));
        assert(text@ =~= decimal_text(n as nat));
        text
    }
}

} // verus!
