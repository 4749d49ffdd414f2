//! The decimal rendering of a natural number.

use vstd::prelude::*;
use vstd::string::StringExecFns;

verus! {

/// The character that stands for a decimal digit.
pub open spec fn digit_char(digit: nat) -> char {
    if digit == 0 {
        '0'
    } else if digit == 1 {
        '1'
    } else if digit == 2 {
        '2'
    } else if digit == 3 {
        '3'
    } else if digit == 4 {
        '4'
    } else if digit == 5 {
        '5'
    } else if digit == 6 {
        '6'
    } else if digit == 7 {
        '7'
    } else if digit == 8 {
        '8'
    } else {
        '9'
    }
}

/// The decimal digits of `n`, most significant first, with no sign, no
/// padding and no leading zero; the number zero is the single digit `0`.
pub open spec fn decimal(n: nat) -> Seq<char>
    decreases n,
{
    if n < 10 {
        seq![digit_char(n)]
    } else {
        decimal(n / 10).push(digit_char(n % 10))
    }
}

/// The digits of `n` that stand before some later digits: none for zero.
pub open spec fn leading_digits(n: nat) -> Seq<char> {
    if n == 0 {
        Seq::empty()
    } else {
        decimal(n)
    }
}

/// The text of one decimal digit.
fn digit_text(digit: u8) -> (text: &'static str)
    requires
        digit < 10,
    ensures
        text@ == seq![digit_char(digit as nat)],
{
    proof {
        reveal_strlit("0");
        reveal_strlit("1");
        reveal_strlit("2");
        reveal_strlit("3");
        reveal_strlit("4");
        reveal_strlit("5");
        reveal_strlit("6");
        reveal_strlit("7");
        reveal_strlit("8");
        reveal_strlit("9");
    }
    let text = if digit == 0 {
        "0"
    } else if digit == 1 {
        "1"
    } else if digit == 2 {
        "2"
    } else if digit == 3 {
        "3"
    } else if digit == 4 {
        "4"
    } else if digit == 5 {
        "5"
    } else if digit == 6 {
        "6"
    } else if digit == 7 {
        "7"
    } else if digit == 8 {
        "8"
    } else {
        "9"
    };
    text
}

/// Renders a `u128` in decimal.
pub fn decimal_u128(x: u128) -> (text: String)
    ensures
        text@ == decimal(x as nat),
{
    let mut rest: u128 = x / 10;
    let mut text: String = String::from_str(digit_text((x % 10) as u8));
    assert(decimal(x as nat) =~= leading_digits(rest as nat) + text@);
    while rest != 0
        invariant
            decimal(x as nat) == leading_digits(rest as nat) + text@,
        decreases rest,
    {
        let digit: u8 = (rest % 10) as u8;
        let ghost before = text@;
        let ghost high = rest as nat;
        text = String::from_str(digit_text(digit)).concat(text.as_str());
        rest = rest / 10;
        assert(leading_digits(high) + before =~= leading_digits(rest as nat) + text@);
    }
    text
}

} // verus!
