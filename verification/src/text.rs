//! Numbers as text, text as amounts, and the order of texts.
use std::str::FromStr;

use cosmwasm_std::Uint128;
use vstd::prelude::*;
use vstd::string::*;
use vstd::utf8::encode_utf8;

verus! {

/// The character of the digit `d`.
pub open spec fn digit(d: int) -> char
    recommends
        0 <= d < 10,
{
    seq!['0', '1', '2', '3', '4', '5', '6', '7', '8', '9'][d]
}

/// The decimal notation of `n`, without leading zeros.
pub open spec fn decimal(n: nat) -> Seq<char>
    decreases n,
{
    if n < 10 {
        seq![digit(n as int)]
    } else {
        decimal(n / 10).push(digit((n % 10) as int))
    }
}

/// The decimal notation of `i`, with a minus sign where it is negative.
pub open spec fn signed_decimal(i: int) -> Seq<char> {
    if i < 0 {
        seq!['-'] + decimal((-i) as nat)
    } else {
        decimal(i as nat)
    }
}

/// Whether `c` is a decimal digit.
pub open spec fn is_digit(c: char) -> bool {
    '0' <= c <= '9'
}

/// Whether `s` is one decimal digit or more, and nothing else.
pub open spec fn are_digits(s: Seq<char>) -> bool {
    s.len() > 0 && forall|i: int| 0 <= i < s.len() ==> is_digit(#[trigger] s[i])
}

/// The number that the digits of `s` denote.
pub open spec fn digits_value(s: Seq<char>) -> nat
    decreases s.len(),
{
    if s.len() == 0 {
        0
    } else {
        10 * digits_value(s.drop_last()) + (s.last() as nat - '0' as nat) as nat
    }
}

/// The amount that `text` denotes: an optional plus sign followed by one digit or more, with a
/// value that fits in 128 bits.
pub open spec fn amount_of(text: Seq<char>) -> Option<u128> {
    let digits = if text.len() > 1 && text[0] == '+' {
        text.skip(1)
    } else {
        text
    };
    if are_digits(digits) && digits_value(digits) <= u128::MAX {
        Some(digits_value(digits) as u128)
    } else {
        None
    }
}

/// Reads an amount with the `FromStr` of `cosmwasm_std::Uint128`, which accepts what the
/// `FromStr` of `u128` accepts: a plus sign or none, then digits only, and no value above the
/// largest `u128`. `None` stands for the error.
#[verifier::external_body]
pub(crate) fn parse_amount(text: &str) -> (r: Option<u128>)
    ensures
        r == amount_of(text@),
{
    Uint128::from_str(text).ok().map(|amount| amount.u128())
}

fn digit_text(d: u128) -> (r: &'static str)
    requires
        d < 10,
    ensures
        r@ == seq![digit(d as int)],
{
    proof {
        reveal_strlit("0");
        reveal_strlit("1");
        reveal_strlit("2");
        reveal_strlit("3");
        reveal_strlit("4");
        reveal_strlit("5");
        reveal_strlit("6");
        reveal_strlit("7");
        reveal_strlit("8");
        reveal_strlit("9");
    }
    if d == 0 {
        "0"
    } else if d == 1 {
        "1"
    } else if d == 2 {
        "2"
    } else if d == 3 {
        "3"
    } else if d == 4 {
        "4"
    } else if d == 5 {
        "5"
    } else if d == 6 {
        "6"
    } else if d == 7 {
        "7"
    } else if d == 8 {
        "8"
    } else {
        "9"
    }
}

/// The decimal notation of `n`.
pub fn decimal_text(n: u128) -> (r: String)
    ensures
        r@ == decimal(n as nat),
    decreases n,
{
    if n < 10 {
        digit_text(n).to_owned()
    } else {
        let mut text = decimal_text(n / 10);
        text.append(digit_text(n % 10));
        proof {
            assert(text@ =~= decimal((n / 10) as nat).push(digit((n % 10) as int)));
        }
        text
    }
}

/// The decimal notation of `i`, with a minus sign where it is negative.
pub fn signed_decimal_text(i: i128) -> (r: String)
    ensures
        r@ == signed_decimal(i as int),
{
    if i >= 0 {
        decimal_text(i as u128)
    } else {
        let magnitude: u128 = (-(i + 1)) as u128 + 1;
        let mut text = "-".to_owned();
        proof {
            reveal_strlit("-");
        }
        let digits = decimal_text(magnitude);
        text.append(digits.as_str());
        proof {
            assert(text@ =~= seq!['-'] + decimal((-(i as int)) as nat));
        }
        text
    }
}

/// Whether two texts are the same.
pub(crate) fn same_text(a: &str, b: &str) -> (r: bool)
    ensures
        r == (a@ == b@),
{
    a.to_owned() == b.to_owned()
}

/// The characters of each text of a list.
pub open spec fn texts(list: Seq<String>) -> Seq<Seq<char>> {
    list.map_values(|s: String| s@)
}

/// Whether `list` holds `wanted`.
pub(crate) fn holds_text(list: &Vec<String>, wanted: &str) -> (r: bool)
    ensures
        r == texts(list@).contains(wanted@),
{
    let mut i: usize = 0;
    while i < list.len()
        invariant
            i <= list.len(),
            forall|j: int| 0 <= j < i ==> texts(list@)[j] != wanted@,
        decreases list.len() - i,
    {
        if same_text(list[i].as_str(), wanted) {
            proof {
                assert(texts(list@)[i as int] == wanted@);
            }
            return true;
        }
        i = i + 1;
    }
    false
}

/// The texts of `list` other than `unwanted`, in their order.
pub open spec fn without(list: Seq<Seq<char>>, unwanted: Seq<char>) -> Seq<Seq<char>> {
    list.filter(|s: Seq<char>| s != unwanted)
}

/// Drops every occurrence of `unwanted`.
pub(crate) fn drop_text(list: &Vec<String>, unwanted: &str) -> (r: Vec<String>)
    ensures
        texts(r@) == without(texts(list@), unwanted@),
{
    let mut kept: Vec<String> = Vec::new();
    let mut i: usize = 0;
    proof {
        reveal(Seq::filter);
        assert(texts(list@).take(0) =~= Seq::<Seq<char>>::empty());
        assert(texts(kept@) =~= Seq::<Seq<char>>::empty());
    }
    while i < list.len()
        invariant
            i <= list.len(),
            texts(kept@) == without(texts(list@).take(i as int), unwanted@),
        decreases list.len() - i,
    {
        let ghost before = texts(kept@);
        proof {
            reveal(Seq::filter);
            assert(texts(list@).take(i + 1).drop_last() =~= texts(list@).take(i as int));
            assert(texts(list@).take(i + 1).last() == list@[i as int]@);
        }
        if !same_text(list[i].as_str(), unwanted) {
            kept.push(list[i].clone());
            proof {
                assert(texts(kept@) =~= before.push(list@[i as int]@));
            }
        }
        i = i + 1;
    }
    proof {
        assert(texts(list@).take(i as int) =~= texts(list@));
    }
    kept
}

/// The lexicographic order of byte sequences.
pub open spec fn bytes_before(a: Seq<u8>, b: Seq<u8>) -> bool
    decreases a.len(),
{
    if b.len() == 0 {
        false
    } else if a.len() == 0 {
        true
    } else if a[0] != b[0] {
        a[0] < b[0]
    } else {
        bytes_before(a.drop_first(), b.drop_first())
    }
}

/// The order of texts: lexicographic by their bytes.
pub open spec fn text_before(a: Seq<char>, b: Seq<char>) -> bool {
    bytes_before(encode_utf8(a), encode_utf8(b))
}

/// Whether `a` comes strictly before `b`.
pub(crate) fn comes_before(a: &str, b: &str) -> (r: bool)
    ensures
        r == text_before(a@, b@),
{
    let left = a.as_bytes();
    let right = b.as_bytes();
    let mut i: usize = 0;
    proof {
        assert(left@.skip(0) =~= left@);
        assert(right@.skip(0) =~= right@);
    }
    while i < left.len() && i < right.len() && left[i] == right[i]
        invariant
            i <= left.len(),
            i <= right.len(),
            bytes_before(left@, right@) == bytes_before(
                left@.skip(i as int),
                right@.skip(i as int),
            ),
        decreases left.len() - i,
    {
        proof {
            assert(left@.skip(i as int).drop_first() =~= left@.skip(i + 1));
            assert(right@.skip(i as int).drop_first() =~= right@.skip(i + 1));
        }
        i = i + 1;
    }
    if i >= right.len() {
        false
    } else if i >= left.len() {
        true
    } else {
        left[i] < right[i]
    }
}

} // verus!
