//! Token amounts: unsigned 256-bit integers in a token's smallest unit.

use ethers::types::U256;
use vstd::prelude::*;

verus! {

/// A quantity of a token in its smallest indivisible unit.
///
/// The four limbs are the base-2^64 digits of the amount, least significant
/// first, as the on-chain integer type lays them out.
#[derive(Clone, Copy, Debug, PartialEq, Eq)]
pub struct TokenAmount {
    pub w0: u64,
    pub w1: u64,
    pub w2: u64,
    pub w3: u64,
}

impl View for TokenAmount {
    type V = nat;

    /// The number that the limbs stand for: each limb weighs 2^64 times the
    /// one before it.
    open spec fn view(&self) -> nat {
        (self.w0 as nat) + (self.w1 as nat) * 0x1_0000_0000_0000_0000 + (self.w2 as nat)
            * 0x1_0000_0000_0000_0000_0000_0000_0000_0000 + (self.w3 as nat)
            * 0x1_0000_0000_0000_0000_0000_0000_0000_0000_0000_0000_0000_0000
    }
}

/// Amounts that stand for the same number have the same limbs.
pub proof fn lemma_view_injective(a: TokenAmount, b: TokenAmount)
    requires
        a@ == b@,
    ensures
        a == b,
{
    let high_a = a.w1 + a.w2 * 0x1_0000_0000_0000_0000 + a.w3
        * 0x1_0000_0000_0000_0000_0000_0000_0000_0000;
    let high_b = b.w1 + b.w2 * 0x1_0000_0000_0000_0000 + b.w3
        * 0x1_0000_0000_0000_0000_0000_0000_0000_0000;
    assert(a@ == a.w0 + high_a * 0x1_0000_0000_0000_0000);
    assert(b@ == b.w0 + high_b * 0x1_0000_0000_0000_0000);
    assert(high_a == high_b);
    let top_a = a.w2 + a.w3 * 0x1_0000_0000_0000_0000;
    let top_b = b.w2 + b.w3 * 0x1_0000_0000_0000_0000;
    assert(high_a == a.w1 + top_a * 0x1_0000_0000_0000_0000);
    assert(high_b == b.w1 + top_b * 0x1_0000_0000_0000_0000);
    assert(top_a == top_b);
}

/// `to_string` on a `U256`: the decimal digits of the value, most significant
/// first, without sign, padding or leading zeros; `"0"` for zero.
#[verifier::external_body]
pub(crate) fn u256_to_string(a: &TokenAmount) -> (r: String)
    ensures
        r@ == decimal_digits(a@),
{
    U256([a.w0, a.w1, a.w2, a.w3]).to_string()
}

/// The character for a decimal digit.
pub open spec fn digit_char(d: nat) -> char
    recommends
        d < 10,
{
    (('0' as u8) + d) as char
}

/// The decimal digits of `n`, most significant first, without leading zeros.
pub open spec fn decimal_digits(n: nat) -> Seq<char>
    decreases n,
{
    if n < 10 {
        seq![digit_char(n)]
    } else {
        decimal_digits(n / 10).push(digit_char(n % 10))
    }
}

/// The number that a sequence of decimal digits stands for.
pub open spec fn digits_value(s: Seq<char>) -> nat
    decreases s.len(),
{
    if s.len() == 0 {
        0
    } else {
        digits_value(s.drop_last()) * 10 + (s.last() as u32 - '0' as u32) as nat
    }
}

/// Whether `s` holds decimal digits and nothing else.
pub open spec fn all_digits(s: Seq<char>) -> bool {
    forall|i: int| 0 <= i < s.len() ==> is_digit(#[trigger] s[i])
}

/// Whether `c` is a decimal digit.
pub open spec fn is_digit(c: char) -> bool {
    '0' <= c && c <= '9'
}

/// The decimal digits of a number are digits, begin with no zero unless the
/// number is zero, and stand for that number.
pub proof fn lemma_decimal_digits(n: nat)
    ensures
        decimal_digits(n).len() >= 1,
        all_digits(decimal_digits(n)),
        digits_value(decimal_digits(n)) == n,
        decimal_digits(n)[0] == '0' <==> n == 0,
    decreases n,
{
    let s = decimal_digits(n);
    if n < 10 {
        assert(s.drop_last() =~= Seq::<char>::empty());
        assert(digits_value(s.drop_last()) == 0);
        assert(s.last() == digit_char(n));
    } else {
        lemma_decimal_digits(n / 10);
        let head = decimal_digits(n / 10);
        assert(s.drop_last() =~= head);
        assert(s.last() == digit_char(n % 10));
        assert forall|i: int| 0 <= i < s.len() implies is_digit(#[trigger] s[i]) by {
            if i < head.len() {
                assert(s[i] == head[i]);
            }
        }
        assert(s[0] == head[0]);
    }
}

/// One limb of a difference: `a - b - borrow` modulo 2^64, and whether it
/// borrows from the next limb.
fn limb_sub(a: u64, b: u64, borrow: bool) -> (r: (u64, bool))
    ensures
        r.0 == a - b - (if borrow { 1int } else { 0int }) + (if r.1 {
            0x1_0000_0000_0000_0000int
        } else {
            0int
        }),
{
    let taken: u128 = b as u128 + if borrow { 1u128 } else { 0u128 };
    if a as u128 >= taken {
        ((a as u128 - taken) as u64, false)
    } else {
        ((0x1_0000_0000_0000_0000u128 + a as u128 - taken) as u64, true)
    }
}

impl TokenAmount {
    /// The amount with the given value.
    pub fn from_u128(value: u128) -> (r: TokenAmount)
        ensures
            r@ == value,
    {
        TokenAmount {
            w0: (value % 0x1_0000_0000_0000_0000u128) as u64,
            w1: (value / 0x1_0000_0000_0000_0000u128) as u64,
            w2: 0,
            w3: 0,
        }
    }

    /// The amount with the given limbs, least significant first.
    pub fn from_limbs(w0: u64, w1: u64, w2: u64, w3: u64) -> (r: TokenAmount)
        ensures
            r == (TokenAmount { w0, w1, w2, w3 }),
    {
        TokenAmount { w0, w1, w2, w3 }
    }

    /// Whether this amount is strictly larger than `other`.
    pub fn gt(&self, other: &TokenAmount) -> (r: bool)
        ensures
            r == (self@ > other@),
    {
        if self.w3 != other.w3 {
            self.w3 > other.w3
        } else if self.w2 != other.w2 {
            self.w2 > other.w2
        } else if self.w1 != other.w1 {
            self.w1 > other.w1
        } else {
            self.w0 > other.w0
        }
    }

    /// The difference `self - other`, or `None` where `other` is the larger.
    pub fn checked_sub(&self, other: &TokenAmount) -> (r: Option<TokenAmount>)
        ensures
            self@ >= other@ ==> r is Some && r->0@ == self@ - other@,
            self@ < other@ ==> r is None,
    {
        if other.gt(self) {
            None
        } else {
            Some(difference(self, other))
        }
    }

    /// The distance between two amounts: the larger minus the smaller.
    pub fn abs_diff(&self, other: &TokenAmount) -> (r: TokenAmount)
        ensures
            self@ >= other@ ==> r@ == self@ - other@,
            self@ < other@ ==> r@ == other@ - self@,
    {
        if other.gt(self) {
            difference(other, self)
        } else {
            difference(self, other)
        }
    }
}

/// `a - b`, limb by limb from the least significant, for `a` at least `b`.
fn difference(a: &TokenAmount, b: &TokenAmount) -> (r: TokenAmount)
    requires
        a@ >= b@,
    ensures
        r@ == a@ - b@,
{
    let (w0, borrow0) = limb_sub(a.w0, b.w0, false);
    let (w1, borrow1) = limb_sub(a.w1, b.w1, borrow0);
    let (w2, borrow2) = limb_sub(a.w2, b.w2, borrow1);
    let (w3, borrow3) = limb_sub(a.w3, b.w3, borrow2);
    TokenAmount { w0, w1, w2, w3 }
}

} // verus!
