//! Conversion between integer amounts in a token's smallest unit and
//! human-scale decimal values.
//!
//! A human-scale value is held exactly, as decimal text: the digits of the
//! amount with a decimal point placed `decimals` digits from the right. No
//! division takes place, so no digit of a large amount is lost.

use crate::amount::{
    all_digits, decimal_digits, digits_value, lemma_decimal_digits, u256_to_string, TokenAmount,
};
use vstd::arithmetic::power::{lemma_pow0, lemma_pow1, lemma_pow_adds, lemma_pow_increases, pow};
use vstd::prelude::*;

verus! {

/// `k` zero digits.
pub open spec fn zeros(k: nat) -> Seq<char> {
    Seq::new(k, |i: int| '0')
}

/// The digit sequence `digits` with a decimal point `decimals` places from
/// the right. With no decimals the digits stand alone. Digits too few to
/// reach the point are padded on the left with zeros, behind a leading `0.`.
pub open spec fn decimal_text(digits: Seq<char>, decimals: nat) -> Seq<char> {
    if decimals == 0 {
        digits
    } else if digits.len() <= decimals {
        seq!['0', '.'] + zeros((decimals - digits.len()) as nat) + digits
    } else {
        digits.subrange(0, digits.len() - decimals) + seq!['.'] + digits.subrange(
            digits.len() - decimals,
            digits.len() as int,
        )
    }
}

/// The human-scale value of `n` smallest units of a token with `decimals`
/// decimals, as exact decimal text.
pub open spec fn human_text(n: nat, decimals: nat) -> Seq<char> {
    decimal_text(decimal_digits(n), decimals)
}

/// The largest decimal count whose scale factor fits in 128 bits.
pub const MAX_SCALE_DECIMALS: u32 = 38;

/// Ten to the power `decimals`: the number of smallest units in one whole
/// token. `None` where that number does not fit in 128 bits, which is so
/// from 39 decimals on.
pub fn scale_factor(decimals: u32) -> (r: Option<u128>)
    ensures
        r is Some <==> decimals <= MAX_SCALE_DECIMALS,
        r is Some <==> pow(10, decimals as nat) <= u128::MAX,
        r matches Some(factor) ==> factor == pow(10, decimals as nat),
{
    let mut factor: u128 = 1;
    let mut i: u32 = 0;
    proof {
        lemma_pow0(10);
    }
    while i < decimals
        invariant
            i <= decimals,
            i <= MAX_SCALE_DECIMALS,
            factor == pow(10, i as nat),
        decreases decimals - i,
    {
        proof {
            lemma_pow_adds(10, i as nat, 1);
            lemma_pow1(10);
            lemma_scale_38();
            assert(pow(10, (i + 1) as nat) == factor * 10);
        }
        if i == MAX_SCALE_DECIMALS {
            proof {
                lemma_pow_increases(10, (i + 1) as nat, decimals as nat);
            }
            return None;
        }
        proof {
            lemma_pow_increases(10, (i + 1) as nat, 38);
        }
        factor = factor * 10;
        i = i + 1;
    }
    proof {
        lemma_scale_38();
        lemma_pow_increases(10, decimals as nat, 38);
    }
    Some(factor)
}

/// Ten to the power 38, written out.
proof fn lemma_scale_38()
    ensures
        pow(10, 38) == 100000000000000000000000000000000000000u128,
{
    reveal_with_fuel(pow, 39);
}

/// Zeros stand for zero.
proof fn lemma_zeros_value(k: nat)
    ensures
        digits_value(zeros(k)) == 0,
    decreases k,
{
    if k > 0 {
        lemma_zeros_value((k - 1) as nat);
        assert(zeros(k).drop_last() =~= zeros((k - 1) as nat));
    }
}

/// Digits written behind other digits: the first number moves up by one
/// power of ten for each digit that follows it.
proof fn lemma_digits_value_concat(a: Seq<char>, b: Seq<char>)
    ensures
        digits_value(a + b) == digits_value(a) * pow(10, b.len()) + digits_value(b),
    decreases b.len(),
{
    if b.len() == 0 {
        assert(a + b =~= a);
        lemma_pow0(10);
    } else {
        let front = b.drop_last();
        lemma_digits_value_concat(a, front);
        assert((a + b).drop_last() =~= a + front);
        assert((a + b).last() == b.last());
        lemma_pow_adds(10, front.len(), 1);
        lemma_pow1(10);
        let p = pow(10, front.len());
        assert(pow(10, b.len()) == p * 10);
        assert((digits_value(a) * p + digits_value(front)) * 10 == digits_value(a) * (p * 10)
            + digits_value(front) * 10) by (nonlinear_arith);
    }
}

/// The human-scale text loses nothing. Without decimals it is the digits of
/// the amount. With decimals it is a whole part of at least one digit, a
/// point, and a fraction of exactly `decimals` digits, and the amount is the
/// whole part times ten to the power `decimals`, plus the fraction.
pub proof fn lemma_human_text_exact(n: nat, decimals: nat)
    ensures
        decimals == 0 ==> human_text(n, decimals) == decimal_digits(n),
        decimals > 0 ==> {
            let text = human_text(n, decimals);
            let point = text.len() - decimals - 1;
            let whole = text.subrange(0, point);
            let fraction = text.subrange(point + 1, text.len() as int);
            &&& point >= 1
            &&& text[point] == '.'
            &&& all_digits(whole)
            &&& all_digits(fraction)
            &&& fraction.len() == decimals
            &&& digits_value(whole) * pow(10, decimals) + digits_value(fraction) == n
        },
{
    if decimals > 0 {
        let digits = decimal_digits(n);
        lemma_decimal_digits(n);
        let text = human_text(n, decimals);
        let point = text.len() - decimals - 1;
        let whole = text.subrange(0, point);
        let fraction = text.subrange(point + 1, text.len() as int);
        lemma_digits_value_concat(whole, fraction);
        if digits.len() <= decimals {
            let pad = (decimals - digits.len()) as nat;
            assert(whole =~= seq!['0']);
            assert(fraction =~= zeros(pad) + digits);
            assert(whole + fraction =~= zeros(pad + 1) + digits);
            lemma_digits_value_concat(zeros(pad + 1), digits);
            lemma_zeros_value(pad + 1);
            assert(0 * pow(10, digits.len()) == 0) by (nonlinear_arith);
        } else {
            assert(whole =~= digits.subrange(0, digits.len() - decimals));
            assert(fraction =~= digits.subrange(digits.len() - decimals, digits.len() as int));
            assert(whole + fraction =~= digits);
        }
    }
}

/// The human-scale value of `amount` smallest units of a token with
/// `decimals` decimals, as exact decimal text.
pub fn to_human_value(amount: &TokenAmount, decimals: u32) -> (r: String)
    ensures
        r@ == human_text(amount@, decimals as nat),
{
    let digits = u256_to_string(amount);
    if decimals == 0 {
        return digits;
    }
    let len = digits.as_str().unicode_len();
    let places = decimals as usize;
    if len <= places {
        let mut out = String::from_str("0.");
        proof {
            reveal_strlit("0.");
            assert(out@ =~= seq!['0', '.'] + zeros(0));
        }
        let pad = places - len;
        let mut i: usize = 0;
        while i < pad
            invariant
                i <= pad,
                out@ == seq!['0', '.'] + zeros(i as nat),
            decreases pad - i,
        {
            out.append("0");
            i = i + 1;
            proof {
                reveal_strlit("0");
                assert(out@ =~= seq!['0', '.'] + zeros(i as nat));
            }
        }
        out.append(digits.as_str());
        out
    } else {
        let cut = len - places;
        let mut out = String::from_str(digits.as_str().substring_char(0, cut));
        out.append(".");
        out.append(digits.as_str().substring_char(cut, len));
        proof {
            reveal_strlit(".");
            assert(out@ =~= decimal_text(digits@, decimals as nat));
        }
        out
    }
}

} // verus!
