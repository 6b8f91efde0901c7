//! Unbounded unsigned amounts (premiums, coverage).

use vstd::prelude::*;
use vstd::arithmetic::power::{lemma_pow0, lemma_pow1, lemma_pow_adds, pow};
use crate::identity::{bytes_equal, copy_bytes};

verus! {

/// The number that `digits` writes in base 256, least significant digit
/// first.
pub open spec fn le_value(digits: Seq<u8>) -> nat
    decreases digits.len(),
{
    if digits.len() == 0 {
        0
    } else {
        digits[0] as nat + 256 * le_value(digits.drop_first())
    }
}

/// An unsigned integer of any size, held as its base-256 digits, least
/// significant first. Leading zero digits (at the end) are allowed.
#[derive(Debug)]
pub struct Amount {
    digits: Vec<u8>,
}

impl View for Amount {
    type V = nat;

    closed spec fn view(&self) -> nat {
        le_value(self.digits@)
    }
}

impl Amount {
    /// The digits as stored, least significant first.
    pub closed spec fn digits(&self) -> Seq<u8> {
        self.digits@
    }

    /// The amount written by `digits`, least significant first.
    pub fn from_le_bytes(digits: Vec<u8>) -> (r: Amount)
        ensures
            r.digits() == digits@,
            r@ == le_value(digits@),
    {
        Amount { digits }
    }

    /// The digits as stored, least significant first.
    pub fn to_le_bytes(&self) -> (r: Vec<u8>)
        ensures
            r@ == self.digits(),
            le_value(r@) == self@,
    {
        copy_bytes(&self.digits)
    }

    /// The amount `value`.
    pub fn from_u64(value: u64) -> (r: Amount)
        ensures
            r@ == value,
    {
        let mut digits: Vec<u8> = Vec::new();
        let mut rest: u64 = value;
        let mut k: usize = 0;
        let ghost mut weight: nat = 1;
        proof {
            lemma_pow0(256);
        }
        while k < 8
            invariant
                k <= 8,
                digits@.len() == k,
                value as nat == le_value(digits@) + weight * rest,
                weight == pow(256, k as nat),
            decreases 8 - k,
        {
            let digit: u8 = (rest % 256) as u8;
            let ghost before = digits@;
            digits.push(digit);
            proof {
                lemma_value_push(before, digit);
                lemma_pow_adds(256, k as nat, 1);
                lemma_pow1(256);
                assert(weight * rest == weight * digit + (weight * 256) * (rest / 256))
                    by (nonlinear_arith)
                    requires
                        rest == digit + 256 * (rest / 256),
                ;
                weight = weight * 256;
            }
            rest = rest / 256;
            k = k + 1;
        }
        proof {
            lemma_pow_adds(256, 4, 4);
            lemma_pow_adds(256, 2, 2);
            lemma_pow_adds(256, 1, 1);
            lemma_pow1(256);
            assert(weight == 0x1_0000_0000_0000_0000) by (nonlinear_arith)
                requires
                    weight == pow(256, 8),
                    pow(256, 8) == pow(256, 4) * pow(256, 4),
                    pow(256, 4) == pow(256, 2) * pow(256, 2),
                    pow(256, 2) == pow(256, 1) * pow(256, 1),
                    pow(256, 1) == 256,
            ;
            assert(rest == 0) by (nonlinear_arith)
                requires
                    value as nat == le_value(digits@) + weight * rest,
                    weight == 0x1_0000_0000_0000_0000,
                    value <= u64::MAX,
                    rest >= 0,
            ;
        }
        Amount { digits }
    }

    /// Whether the amount is zero.
    pub fn is_zero(&self) -> (r: bool)
        ensures
            r == (self@ == 0),
    {
        let mut i: usize = self.digits.len();
        while i > 0
            invariant
                i <= self.digits.len(),
                le_value(self.digits@.skip(i as int)) == 0,
            decreases i,
        {
            i = i - 1;
            proof {
                assert(self.digits@.skip(i as int).drop_first() =~= self.digits@.skip(i + 1));
            }
            if self.digits[i] != 0 {
                proof {
                    lemma_value_positive_suffix(self.digits@, i as int);
                }
                return false;
            }
        }
        assert(self.digits@.skip(0) =~= self.digits@);
        true
    }

    /// Whether two amounts are stored with the same digits.
    pub fn same_digits(&self, other: &Amount) -> (r: bool)
        ensures
            r == (self.digits() == other.digits()),
            r ==> self@ == other@,
    {
        bytes_equal(&self.digits, &other.digits)
    }
}

impl Clone for Amount {
    fn clone(&self) -> (r: Amount)
        ensures
            r@ == self@,
            r.digits() == self.digits(),
    {
        Amount { digits: copy_bytes(&self.digits) }
    }
}

/// Appending a digit adds that digit at the weight of its place.
pub proof fn lemma_value_push(digits: Seq<u8>, digit: u8)
    ensures
        le_value(digits.push(digit)) == le_value(digits) + pow(256, digits.len()) * digit,
    decreases digits.len(),
{
    let longer = digits.push(digit);
    if digits.len() == 0 {
        assert(le_value(longer.drop_first()) == 0);
        lemma_pow0(256);
    } else {
        let rest = digits.drop_first();
        assert(longer.drop_first() =~= rest.push(digit));
        lemma_value_push(rest, digit);
        let p = pow(256, rest.len());
        lemma_pow_adds(256, 1, rest.len());
        lemma_pow1(256);
        assert(256 * (le_value(rest) + p * digit) == 256 * le_value(rest) + (256 * p) * digit)
            by (nonlinear_arith);
    }
}

/// A positive suffix makes the whole value positive.
pub proof fn lemma_value_positive_suffix(digits: Seq<u8>, at: int)
    requires
        0 <= at <= digits.len(),
        le_value(digits.skip(at)) > 0,
    ensures
        le_value(digits) > 0,
    decreases at,
{
    if at == 0 {
        assert(digits.skip(0) =~= digits);
    } else {
        assert(digits.skip(at - 1).drop_first() =~= digits.skip(at));
        lemma_value_positive_suffix(digits, at - 1);
    }
}

} // verus!
