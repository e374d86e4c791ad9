//! Decimal text of integers, as it stands in the names of stored frames.

use vstd::prelude::*;
use vstd::string::StringExecFns;

verus! {

/// The character that stands for one decimal digit.
pub open spec fn digit_char(d: int) -> char
    recommends
        0 <= d <= 9,
{
    if d == 0 {
        '0'
    } else if d == 1 {
        '1'
    } else if d == 2 {
        '2'
    } else if d == 3 {
        '3'
    } else if d == 4 {
        '4'
    } else if d == 5 {
        '5'
    } else if d == 6 {
        '6'
    } else if d == 7 {
        '7'
    } else if d == 8 {
        '8'
    } else {
        '9'
    }
}

/// The digits of a natural number, most significant first, with no leading zero.
pub open spec fn digits_text(n: nat) -> Seq<char>
    decreases n,
{
    if n < 10 {
        seq![digit_char(n as int)]
    } else {
        digits_text(n / 10) + seq![digit_char((n % 10) as int)]
    }
}

/// The decimal text of an integer: the digits of its magnitude, after a minus
/// sign where it is negative.
pub open spec fn decimal_text(n: int) -> Seq<char> {
    if n < 0 {
        seq!['-'] + digits_text((-n) as nat)
    } else {
        digits_text(n as nat)
    }
}

/// The number of digits of a natural number.
pub open spec fn digit_count(n: nat) -> nat {
    digits_text(n).len()
}

/// What is left of a number when its last `k` digits are struck out.
pub open spec fn strike_digits(n: nat, k: nat) -> nat
    decreases k,
{
    if k == 0 {
        n
    } else {
        strike_digits(n / 10, (k - 1) as nat)
    }
}

/// A number has at least one digit.
pub proof fn lemma_digits_nonempty(n: nat)
    ensures
        digit_count(n) >= 1,
    decreases n,
{
    if n >= 10 {
        lemma_digits_nonempty(n / 10);
    }
}

/// Every character of a number's text is a digit.
pub proof fn lemma_digits_are_digits(n: nat, i: int)
    requires
        0 <= i < digit_count(n),
    ensures
        ('0' as u32) <= (digits_text(n)[i] as u32) <= ('9' as u32),
    decreases n,
{
    if n >= 10 && i < digit_count(n) - 1 {
        lemma_digits_are_digits(n / 10, i);
    }
}

/// The greater of two numbers has at least as many digits.
pub proof fn lemma_digit_count_grows(a: nat, b: nat)
    requires
        a <= b,
    ensures
        digit_count(a) <= digit_count(b),
    decreases b,
{
    lemma_digits_nonempty(b / 10);
    if a >= 10 {
        lemma_digit_count_grows(a / 10, b / 10);
    }
}

/// Striking out the last `k` digits of a number leaves its text without the
/// last `k` characters.
pub proof fn lemma_struck_digits(n: nat, k: nat)
    requires
        k < digit_count(n),
    ensures
        digits_text(strike_digits(n, k)) == digits_text(n).take(digit_count(n) - k),
    decreases k,
{
    if k > 0 {
        lemma_struck_digits(n / 10, (k - 1) as nat);
    }
    assert(digits_text(strike_digits(n, k)) =~= digits_text(n).take(digit_count(n) - k));
}

/// Two numbers of equally many digits agree up to some place, at which the
/// lesser number has the lesser digit. The place is returned.
pub proof fn lemma_digits_differ(a: nat, b: nat) -> (k: int)
    requires
        a < b,
        digit_count(a) == digit_count(b),
    ensures
        0 <= k < digit_count(a),
        forall|i: int| 0 <= i < k ==> digits_text(a)[i] == digits_text(b)[i],
        (digits_text(a)[k] as u32) < (digits_text(b)[k] as u32),
    decreases b,
{
    lemma_digits_nonempty(a / 10);
    lemma_digits_nonempty(b / 10);
    if b < 10 {
        0
    } else if a / 10 == b / 10 {
        digit_count(a) - 1
    } else {
        lemma_digits_differ(a / 10, b / 10)
    }
}

/// A number of nanoseconds that 64 bits hold has nineteen digits from
/// 1 000 000 000 000 000 000 on.
pub proof fn lemma_nineteen_digits(n: i64)
    requires
        n >= 1_000_000_000_000_000_000,
    ensures
        digit_count(n as nat) == 19,
{
    reveal_with_fuel(digits_text, 20);
}

fn digit_str(d: u64) -> (s: &'static str)
    requires
        d < 10,
    ensures
        s@ == seq![digit_char(d as int)],
{
    proof {
        reveal_strlit("0");
        reveal_strlit("1");
        reveal_strlit("2");
        reveal_strlit("3");
        reveal_strlit("4");
        reveal_strlit("5");
        reveal_strlit("6");
        reveal_strlit("7");
        reveal_strlit("8");
        reveal_strlit("9");
    }
    let s = match d {
        0 => "0",
        1 => "1",
        2 => "2",
        3 => "3",
        4 => "4",
        5 => "5",
        6 => "6",
        7 => "7",
        8 => "8",
        _ => "9",
    };
    assert(s@ =~= seq![digit_char(d as int)]);
    s
}

fn push_digits(out: &mut String, n: u64)
    ensures
        final(out)@ == old(out)@ + digits_text(n as nat),
    decreases n,
{
    if n >= 10 {
        push_digits(out, n / 10);
    }
    out.append(digit_str(n % 10));
}

/// Writes an integer in decimal.
pub fn decimal_string(n: i64) -> (text: String)
    ensures
        text@ == decimal_text(n as int),
{
    let mut text = String::new();
    if n < 0 {
        text.append("-");
        proof {
            reveal_strlit("-");
        }
        let magnitude: u64 = (-(n + 1)) as u64 + 1;
        push_digits(&mut text, magnitude);
        assert(text@ =~= decimal_text(n as int));
    } else {
        push_digits(&mut text, n as u64);
        assert(text@ =~= decimal_text(n as int));
    }
    text
}

} // verus!
