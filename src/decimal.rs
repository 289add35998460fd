//! Decimal text of unsigned integers.

use vstd::prelude::*;

verus! {

/// The ten decimal digit characters, `'0'` through `'9'`.
pub open spec fn digit_chars() -> Seq<char> {
    seq!['0', '1', '2', '3', '4', '5', '6', '7', '8', '9']
}

/// The character of the decimal digit `d`.
pub open spec fn digit_char(d: nat) -> char
    recommends
        d < 10,
{
    digit_chars()[d as int]
}

/// The value of the digit character `c`.
pub open spec fn digit_value(c: char) -> nat {
    digit_chars().index_of(c) as nat
}

/// The decimal form of `n`: its digits, most significant first, with no
/// leading zero (zero itself is the one digit `'0'`).
pub open spec fn decimal(n: nat) -> Seq<char>
    decreases n,
{
    if n < 10 {
        seq![digit_char(n)]
    } else {
        decimal(n / 10).push(digit_char(n % 10))
    }
}

/// Whether every character of `s` is a decimal digit.
pub open spec fn all_digits(s: Seq<char>) -> bool {
    forall|i: int| 0 <= i < s.len() ==> digit_chars().contains(#[trigger] s[i])
}

/// The number that the digit string `s` spells, most significant digit first.
pub open spec fn value_of(s: Seq<char>) -> nat
    decreases s.len(),
{
    if s.len() == 0 {
        0
    } else {
        value_of(s.drop_last()) * 10 + digit_value(s.last())
    }
}

/// Decoding the character of a digit gives the digit back.
pub proof fn lemma_digit_round_trip(d: nat)
    requires
        d < 10,
    ensures
        digit_chars().contains(digit_char(d)),
        digit_value(digit_char(d)) == d,
{
    let c = digit_char(d);
    assert(digit_chars()[d as int] == c);
    assert forall|i: int| 0 <= i < 10 && digit_chars()[i] == c implies i == d by {
        assert(digit_chars()[i] == digit_chars()[d as int]);
    }
}

/// `decimal(n)` is the decimal form of `n`: a non-empty string of digits
/// that spells `n`, whose first digit is `'0'` only for zero itself.
pub proof fn lemma_decimal_form(n: nat)
    ensures
        decimal(n).len() > 0,
        all_digits(decimal(n)),
        value_of(decimal(n)) == n,
        decimal(n)[0] == '0' <==> n == 0,
    decreases n,
{
    lemma_digit_round_trip(n % 10);
    if n < 10 {
        assert(decimal(n) == seq![digit_char(n)]);
        assert(decimal(n).drop_last() =~= Seq::<char>::empty());
        assert(value_of(Seq::<char>::empty()) == 0);
        assert(decimal(n).last() == digit_char(n));
    } else {
        lemma_decimal_form(n / 10);
        let s = decimal(n);
        assert(s == decimal(n / 10).push(digit_char(n % 10)));
        assert(s.drop_last() =~= decimal(n / 10));
        assert(s[0] == decimal(n / 10)[0]);
        assert(s.last() == digit_char(n % 10));
        assert(value_of(s) == value_of(decimal(n / 10)) * 10 + digit_value(digit_char(n % 10)));
        assert(n == (n / 10) * 10 + n % 10);
        assert forall|i: int| 0 <= i < s.len() implies digit_chars().contains(#[trigger] s[i]) by {
            if i < s.len() - 1 {
                assert(s[i] == decimal(n / 10)[i]);
            }
        }
    }
}

/// The text of `d` as a one-character string literal.
fn digit_str(d: usize) -> (r: &'static str)
    requires
        d < 10,
    ensures
        r@ == seq![digit_char(d as nat)],
{
    proof {
        reveal_strlit("0");
        reveal_strlit("1");
        reveal_strlit("2");
        reveal_strlit("3");
        reveal_strlit("4");
        reveal_strlit("5");
        reveal_strlit("6");
        reveal_strlit("7");
        reveal_strlit("8");
        reveal_strlit("9");
    }
    match d {
        0 => "0",
        1 => "1",
        2 => "2",
        3 => "3",
        4 => "4",
        5 => "5",
        6 => "6",
        7 => "7",
        8 => "8",
        _ => "9",
    }
}

/// Appends the decimal form of `n` to `out`.
pub fn push_decimal(n: usize, out: &mut String)
    ensures
        final(out)@ == old(out)@ + decimal(n as nat),
    decreases n,
{
    if n >= 10 {
        push_decimal(n / 10, out);
    }
    let d = digit_str(n % 10);
    out.append(d);
    proof {
        assert(decimal(n as nat) == if n < 10 {
            seq![digit_char(n as nat)]
        } else {
            decimal((n / 10) as nat).push(digit_char((n % 10) as nat))
        });
    }
}

} // verus!
