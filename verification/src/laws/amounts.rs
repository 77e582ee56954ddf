//! Amounts as text.
use vstd::prelude::*;

use crate::text::{
    amount_of, are_digits, decimal, digit, digits_value, is_digit, signed_decimal,
};

verus! {

/// Decimal notation is made of digits and denotes its number.
proof fn lemma_decimal(n: nat)
    ensures
        decimal(n).len() > 0,
        forall|i: int| 0 <= i < decimal(n).len() ==> is_digit(#[trigger] decimal(n)[i]),
        digits_value(decimal(n)) == n,
    decreases n,
{
    if n < 10 {
        lemma_digit(n as int);
        reveal_with_fuel(digits_value, 2);
        assert(decimal(n).drop_last() =~= Seq::<char>::empty());
    } else {
        lemma_decimal(n / 10);
        lemma_digit((n % 10) as int);
        assert(decimal(n).drop_last() =~= decimal(n / 10));
        assert(decimal(n).last() == digit((n % 10) as int));
        assert forall|i: int| 0 <= i < decimal(n).len() implies is_digit(
            #[trigger] decimal(n)[i],
        ) by {
            if i < decimal(n / 10).len() {
                assert(decimal(n)[i] == decimal(n / 10)[i]);
            }
        }
    }
}

/// A digit is a digit, and denotes itself.
proof fn lemma_digit(d: int)
    requires
        0 <= d < 10,
    ensures
        is_digit(digit(d)),
        digit(d) as nat - '0' as nat == d,
{
    assert(d == 0 || d == 1 || d == 2 || d == 3 || d == 4 || d == 5 || d == 6 || d == 7 || d == 8
        || d == 9);
}

/// An amount in decimal notation is read back as the amount.
pub proof fn amounts_are_read_back(amount: u128)
    ensures
        amount_of(decimal(amount as nat)) == Some(amount),
{
    lemma_decimal(amount as nat);
    assert(is_digit(decimal(amount as nat)[0]));
}

/// A text of one character denotes an amount exactly if it is a digit, and then the amount that the
/// digit denotes. The empty text denotes none.
pub proof fn digits_denote_themselves(c: char)
    ensures
        amount_of(Seq::empty()) is None,
        '0' <= c <= '9' ==> (amount_of(seq![c]) matches Some(amount) && amount == c as int
            - '0' as int),
        !('0' <= c <= '9') ==> amount_of(seq![c]) is None,
{
    reveal_with_fuel(digits_value, 2);
    assert(seq![c].drop_last() =~= Seq::<char>::empty());
    assert(seq![c][0] == c);
}

/// A text with one more character denotes an amount exactly if that character is a digit, the text
/// before it denotes one, and the new amount, ten times the one before and the digit, fits in 128
/// bits.
pub proof fn a_digit_more_makes_ten_times_as_much(text: Seq<char>, c: char)
    requires
        text.len() > 0,
        text != seq!['+'],
    ensures
        match amount_of(text) {
            Some(amount) => {
                let longer = 10 * amount + (c as int - '0' as int);
                if '0' <= c <= '9' && longer <= u128::MAX {
                    amount_of(text.push(c)) matches Some(value) && value == longer
                } else {
                    amount_of(text.push(c)) is None
                }
            },
            None => amount_of(text.push(c)) is None,
        },
{
    let longer = text.push(c);
    if text[0] == '+' && text.len() == 1 {
        assert(text =~= seq!['+']);
    }
    let digits = if text.len() > 1 && text[0] == '+' {
        text.skip(1)
    } else {
        text
    };
    let all = if longer[0] == '+' {
        longer.skip(1)
    } else {
        longer
    };
    assert(all =~= digits.push(c));
    assert(all.drop_last() =~= digits);
    assert(all.last() == c);
    assert(are_digits(all) <==> are_digits(digits) && is_digit(c)) by {
        if are_digits(all) {
            assert forall|i: int| 0 <= i < digits.len() implies is_digit(#[trigger] digits[i]) by {
                assert(all[i] == digits[i]);
            }
            assert(is_digit(all[digits.len() as int]));
        }
        if are_digits(digits) && is_digit(c) {
            assert forall|i: int| 0 <= i < all.len() implies is_digit(#[trigger] all[i]) by {
                if i < digits.len() {
                    assert(all[i] == digits[i]);
                }
            }
        }
    }
    assert(digits_value(all) == 10 * digits_value(digits) + (c as nat - '0' as nat) as nat);
}

/// A plus sign in front changes nothing of an amount, but stands only once and not alone.
pub proof fn a_plus_sign_changes_nothing(text: Seq<char>)
    requires
        text.len() > 0,
    ensures
        text[0] != '+' ==> amount_of(seq!['+'] + text) == amount_of(text),
        text[0] == '+' ==> amount_of(seq!['+'] + text) is None,
        amount_of(seq!['+']) is None,
{
    let signed = seq!['+'] + text;
    assert(signed.skip(1) =~= text);
    assert(signed[0] == '+');
    assert(seq!['+'][0] == '+');
    if text[0] == '+' {
        assert(!is_digit(text[0]));
    }
}

/// Decimal notation is that of ten times less with one more digit; the numbers below ten are one
/// digit. It starts with zero only for zero.
pub proof fn decimal_notation_is_positional(n: nat, d: nat)
    requires
        d < 10,
    ensures
        decimal(d).len() == 1,
        '0' <= decimal(d)[0] <= '9',
        decimal(d)[0] as int == '0' as int + d,
        n > 0 ==> decimal(10 * n + d) == decimal(n).push(decimal(d)[0]),
        decimal(n)[0] == '0' <==> n == 0,
    decreases n,
{
    lemma_digit(d as int);
    if n > 0 {
        assert((10 * n + d) / 10 == n);
        assert((10 * n + d) % 10 == d);
    }
    if n < 10 {
        lemma_digit(n as int);
    } else {
        decimal_notation_is_positional(n / 10, d);
        lemma_decimal(n / 10);
        assert(decimal(n)[0] == decimal(n / 10)[0]);
    }
}

/// A number below zero is written with a minus sign in front of what is written without it; the
/// others are written without a sign.
pub proof fn a_minus_sign_stands_in_front(i: int)
    ensures
        i >= 0 ==> signed_decimal(i) == decimal(i as nat),
        i < 0 ==> signed_decimal(i) == seq!['-'] + decimal((0 - i) as nat),
{
}

} // verus!
