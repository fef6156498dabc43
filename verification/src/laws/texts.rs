//! Texts and numbers: how numbers are written and read, and how texts are ordered and joined.

use vstd::arithmetic::power::{lemma_pow_adds, pow};
use vstd::prelude::*;

use crate::text::{
    all_digits, decimal, decimal_reads_back, digits_value, is_digit, joined, parsed_unsigned,
    signed_decimal, text_before, unsigned_digits,
};

verus! {

/// A digit stands for its distance from zero, and digits in front of others count ten times as much
/// for each of these.
pub proof fn digits_count_by_tens(a: Seq<char>, b: Seq<char>, c: char)
    ensures
        '0' <= c <= '9' ==> digits_value(seq![c]) == c as nat - '0' as nat,
        digits_value(a + b) == digits_value(a) * pow(10, b.len()) + digits_value(b),
    decreases b.len(),
{
    reveal_with_fuel(digits_value, 2);
    assert(seq![c].drop_last() =~= Seq::<char>::empty());
    if b.len() == 0 {
        assert(a + b =~= a);
        reveal(pow);
    } else {
        let front = b.drop_last();
        digits_count_by_tens(a, front, c);
        assert((a + b).drop_last() =~= a + front);
        lemma_pow_adds(10, front.len(), 1);
        vstd::arithmetic::power::lemma_pow1(10);
        let v = digits_value(a) as int;
        let p = pow(10, front.len());
        assert(v * (p * 10) == (v * p) * 10) by (nonlinear_arith);
        let last = (b.last() as nat - 48) as nat;
        assert(digits_value(a + b) == digits_value(a + front) * 10 + last);
        assert(digits_value(b) == digits_value(front) * 10 + last);
    }
}

/// A number is written in digits, without leading zeros, and reads back; so two numbers are never
/// written alike.
pub proof fn numbers_are_written_in_digits(n: nat, other: nat)
    ensures
        decimal(n).len() > 0,
        forall|i: int| 0 <= i < decimal(n).len() ==> '0' <= #[trigger] decimal(n)[i] <= '9',
        digits_value(decimal(n)) == n,
        decimal(n)[0] == '0' ==> n == 0,
        decimal(n) == decimal(other) ==> n == other,
    decreases n,
{
    decimal_reads_back(n);
    decimal_reads_back(other);
    assert forall|i: int| 0 <= i < decimal(n).len() implies '0' <= #[trigger] decimal(n)[i]
        <= '9' by {
        assert(is_digit(decimal(n)[i]));
    }
    if n >= 10 {
        numbers_are_written_in_digits(n / 10, other);
        decimal_reads_back(n / 10);
        assert(decimal(n)[0] == decimal(n / 10)[0]);
    }
}

/// An integer below zero is written with a minus in front of its distance from zero.
pub proof fn integers_are_written_with_a_sign(n: nat)
    ensures
        signed_decimal(n as int) == decimal(n),
        n > 0 ==> signed_decimal(-(n as int)) == seq!['-'] + decimal(n),
{
    reveal_strlit("-");
    assert("-"@ =~= seq!['-']);
}

/// A number is read from digits that are within the limit, and one `+` in front of them changes
/// nothing.
pub proof fn numbers_are_read_from_digits(digits: Seq<char>, max: nat)
    requires
        digits.len() > 0,
        forall|i: int| 0 <= i < digits.len() ==> '0' <= #[trigger] digits[i] <= '9',
    ensures
        digits_value(digits) <= max ==> parsed_unsigned(digits, max) == Some(digits_value(digits)),
        digits_value(digits) > max ==> parsed_unsigned(digits, max) is None,
        parsed_unsigned(seq!['+'] + digits, max) == parsed_unsigned(digits, max),
{
    let signed = seq!['+'] + digits;
    assert(signed.subrange(1, signed.len() as int) =~= digits);
    assert(digits[0] != '+');
    assert(all_digits(digits));
}

/// No number is read from a text without digits, nor from one with anything but digits behind a
/// first `+`.
pub proof fn no_number_is_read_from_other_texts(s: Seq<char>, max: nat, i: int)
    requires
        s.len() == 0 || s == seq!['+'] || (0 <= i < s.len() && !('0' <= s[i] <= '9') && !(i == 0
            && s[i] == '+')),
    ensures
        parsed_unsigned(s, max) is None,
{
    let digits = unsigned_digits(s);
    if all_digits(digits) && s.len() > 0 && s != seq!['+'] {
        if digits == s {
            assert(is_digit(digits[i]));
        } else {
            assert(is_digit(digits[i - 1]));
        }
    }
}

/// Of two texts that agree up to a place, the one with the lesser character there comes first, or the
/// one that ends there.
pub proof fn texts_are_ordered_by_the_first_difference(a: Seq<char>, b: Seq<char>, n: int)
    requires
        0 <= n <= a.len(),
        n <= b.len(),
        forall|i: int| 0 <= i < n ==> #[trigger] a[i] == b[i],
        n == a.len() || n == b.len() || a[n] != b[n],
    ensures
        n < a.len() && n < b.len() ==> (text_before(a, b) <==> a[n] < b[n]),
        n == a.len() && n < b.len() ==> text_before(a, b),
        n == b.len() ==> !text_before(a, b),
    decreases n,
{
    if n > 0 {
        let a1 = a.subrange(1, a.len() as int);
        let b1 = b.subrange(1, b.len() as int);
        assert(a[0] == b[0]);
        assert forall|i: int| 0 <= i < n - 1 implies #[trigger] a1[i] == b1[i] by {
            assert(a[i + 1] == b[i + 1]);
        }
        texts_are_ordered_by_the_first_difference(a1, b1, n - 1);
    }
}

/// Texts are joined with one space between any two of them.
pub proof fn texts_are_joined_by_spaces(v: Seq<Seq<char>>, last: Seq<char>)
    ensures
        joined(Seq::empty()) == Seq::<char>::empty(),
        joined(seq![last]) == last,
        v.len() > 0 ==> joined(v.push(last)) == joined(v) + seq![' '] + last,
{
    reveal_strlit(" ");
    assert(" "@ =~= seq![' ']);
    assert(v.push(last).drop_last() =~= v);
}

} // verus!
