//! Decimal notation of unsigned integers.

use vstd::prelude::*;

verus! {

/// The character that writes the digit `d`.
pub open spec fn digit_char(d: nat) -> char {
    if d == 0 {
        '0'
    } else if d == 1 {
        '1'
    } else if d == 2 {
        '2'
    } else if d == 3 {
        '3'
    } else if d == 4 {
        '4'
    } else if d == 5 {
        '5'
    } else if d == 6 {
        '6'
    } else if d == 7 {
        '7'
    } else if d == 8 {
        '8'
    } else {
        '9'
    }
}

/// The decimal notation of `n`: most significant digit first, no leading zero
/// but for `0` itself.
pub open spec fn decimal_digits(n: nat) -> Seq<char>
    decreases n,
{
    if n < 10 {
        seq![digit_char(n)]
    } else {
        decimal_digits(n / 10).push(digit_char(n % 10))
    }
}

/// The number of digits that the decimal notation of `n` has.
pub open spec fn digit_count(n: nat) -> nat
    decreases n,
{
    if n < 10 {
        1
    } else {
        1 + digit_count(n / 10)
    }
}

/// The decimal notation of `n` has `digit_count(n)` characters, all of them
/// ASCII, and at most 20 of them when `n` fits in 64 bits.
pub proof fn lemma_decimal_digits(n: nat)
    ensures
        decimal_digits(n).len() == digit_count(n),
        vstd::utf8::is_ascii_chars(decimal_digits(n)),
        n < 10 ==> digit_count(n) == 1,
        10 <= n < 100 ==> digit_count(n) == 2,
        100 <= n < 1000 ==> digit_count(n) == 3,
        1000 <= n < 10000 ==> digit_count(n) == 4,
        n <= u64::MAX ==> digit_count(n) <= 20,
    decreases n,
{
    if n >= 10 {
        lemma_decimal_digits(n / 10);
        lemma_digit_count_bound(n, 20);
    }
}

/// Ten to the power `k`.
pub open spec fn power_of_ten(k: nat) -> nat
    decreases k,
{
    if k == 0 {
        1
    } else {
        10 * power_of_ten((k - 1) as nat)
    }
}

/// A number below the `k`-th power of ten has at most `k` digits, and at
/// least one.
pub proof fn lemma_digit_count_bound(n: nat, k: nat)
    requires
        k >= 1,
    ensures
        n < power_of_ten(k) ==> digit_count(n) <= k,
        k == 20 ==> power_of_ten(k) > u64::MAX,
    decreases k,
{
    if k == 1 {
        assert(power_of_ten(1) == 10) by {
            reveal_with_fuel(power_of_ten, 2);
        }
    } else if n >= 10 {
        lemma_digit_count_bound(n / 10, (k - 1) as nat);
    }
    if k == 20 {
        assert(power_of_ten(20) == 100_000_000_000_000_000_000nat) by {
            reveal_with_fuel(power_of_ten, 21);
        }
    }
}

/// The one-character text of the digit `d`.
fn digit_text(d: u64) -> (text: &'static str)
    requires
        d < 10,
    ensures
        text@ == seq![digit_char(d as nat)],
{
    proof {
        reveal_strlit("0");
        reveal_strlit("1");
        reveal_strlit("2");
        reveal_strlit("3");
        reveal_strlit("4");
        reveal_strlit("5");
        reveal_strlit("6");
        reveal_strlit("7");
        reveal_strlit("8");
        reveal_strlit("9");
    }
    let text = if d == 0 {
        "0"
    } else if d == 1 {
        "1"
    } else if d == 2 {
        "2"
    } else if d == 3 {
        "3"
    } else if d == 4 {
        "4"
    } else if d == 5 {
        "5"
    } else if d == 6 {
        "6"
    } else if d == 7 {
        "7"
    } else if d == 8 {
        "8"
    } else {
        "9"
    };
    assert(text@ =~= seq![digit_char(d as nat)]);
    text
}

/// Writes `n` in decimal notation.
pub fn decimal_string(n: u64) -> (text: String)
    ensures
        text@ == decimal_digits(n as nat),
    decreases n,
{
    if n < 10 {
        String::from_str(digit_text(n))
    } else {
        let mut text = decimal_string(n / 10);
        text.append(digit_text(n % 10));
        assert(text@ =~= decimal_digits(n as nat));
        text
    }
}

} // verus!
