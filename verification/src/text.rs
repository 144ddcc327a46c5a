//! Integers as decimal text.

use vstd::prelude::*;

verus! {

/// The ten decimal digits.
pub open spec fn digit(n: int) -> char
    recommends
        0 <= n < 10,
{
    seq!['0', '1', '2', '3', '4', '5', '6', '7', '8', '9'][n]
}

/// The decimal digits of a natural number, without leading zeros.
pub open spec fn decimal_digits(n: nat) -> Seq<char>
    decreases n,
{
    if n < 10 {
        seq![digit(n as int)]
    } else {
        decimal_digits(n / 10).push(digit((n % 10) as int))
    }
}

/// An integer in decimal notation, with a minus sign if it is negative.
pub open spec fn decimal(n: int) -> Seq<char> {
    if n < 0 {
        seq!['-'] + decimal_digits((-n) as nat)
    } else {
        decimal_digits(n as nat)
    }
}

fn digit_text(n: u64) -> (text: &'static str)
    requires
        n < 10,
    ensures
        text@ == seq![digit(n as int)],
{
    proof {
        reveal_strlit("0");
        reveal_strlit("1");
        reveal_strlit("2");
        reveal_strlit("3");
        reveal_strlit("4");
        reveal_strlit("5");
        reveal_strlit("6");
        reveal_strlit("7");
        reveal_strlit("8");
        reveal_strlit("9");
    }
    let text = if n == 0 {
        "0"
    } else if n == 1 {
        "1"
    } else if n == 2 {
        "2"
    } else if n == 3 {
        "3"
    } else if n == 4 {
        "4"
    } else if n == 5 {
        "5"
    } else if n == 6 {
        "6"
    } else if n == 7 {
        "7"
    } else if n == 8 {
        "8"
    } else {
        "9"
    };
    assert(text@ =~= seq![digit(n as int)]);
    text
}

/// The decimal digits of `n`.
pub fn natural_to_text(n: u64) -> (text: String)
    ensures
        text@ == decimal_digits(n as nat),
    decreases n,
{
    if n < 10 {
        digit_text(n).to_string()
    } else {
        let front = natural_to_text(n / 10);
        let text = front.concat(digit_text(n % 10));
        assert(text@ =~= decimal_digits((n / 10) as nat).push(digit((n % 10) as int)));
        text
    }
}

/// `n` in decimal notation.
pub fn int_to_text(n: i64) -> (text: String)
    ensures
        text@ == decimal(n as int),
{
    if n >= 0 {
        natural_to_text(n as u64)
    } else {
        let size: u64 = (-(n + 1)) as u64 + 1;
        proof {
            reveal_strlit("-");
        }
        let text = "-".to_string().concat(natural_to_text(size).as_str());
        assert(text@ =~= seq!['-'] + decimal_digits((-n) as nat));
        text
    }
}

} // verus!
