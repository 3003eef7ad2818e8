//! Elements of the scalar field of the BN254 curve, held as plain integers.

use vstd::arithmetic::div_mod::{lemma_add_mod_noop, lemma_add_mod_noop_right, lemma_mul_mod_noop_left};
use vstd::arithmetic::power2::{lemma2_to64, lemma_pow2_pos, lemma_pow2_unfold, pow2};
use vstd::prelude::*;

verus! {

/// The high 128 bits of the field's modulus.
pub const MODULUS_HIGH: u128 = 0x30644e72e131a029b85045b68181585d;

/// The low 128 bits of the field's modulus.
pub const MODULUS_LOW: u128 = 0x2833e84879b9709143e1f593f0000001;

/// Two to the power of 128: the weight of the high half of a field value.
pub open spec fn half_weight() -> nat {
    0x1_0000_0000_0000_0000_0000_0000_0000_0000nat
}

/// The prime order of the field.
pub open spec fn modulus() -> nat {
    21888242871839275222246405745257275088548364400416034343698204186575808495617nat
}

/// The two constants are the halves of the modulus.
pub proof fn lemma_modulus_halves()
    ensures
        modulus() == MODULUS_HIGH as nat * half_weight() + MODULUS_LOW as nat,
{
}

/// The number of bits needed to write `n` in binary; zero needs none.
pub open spec fn bit_length(n: nat) -> nat
    decreases n,
{
    if n == 0 {
        0
    } else {
        1 + bit_length(n / 2)
    }
}

/// A number has at most `k` bits exactly when it is below two to the `k`.
pub proof fn lemma_bit_length_bound(n: nat, k: nat)
    ensures
        bit_length(n) <= k <==> n < pow2(k),
    decreases k,
{
    if k == 0 {
        assert(pow2(0) == 1) by {
            lemma2_to64();
        }
    } else {
        lemma_pow2_unfold(k);
        lemma_pow2_pos(k);
        if n != 0 {
            lemma_bit_length_bound(n / 2, (k - 1) as nat);
        }
    }
}

/// Adding a term to a running total may be done on the remainders.
pub proof fn lemma_total_step(total: nat, term: nat)
    ensures
        ((total % modulus()) + (term % modulus())) % modulus() == (total + term) % modulus(),
        ((total % modulus()) + term) % modulus() == (total + term) % modulus(),
{
    lemma_add_mod_noop(total as int, term as int, modulus() as int);
    lemma_add_mod_noop_right(term as int, total as int, modulus() as int);
}

/// Multiplying three factors may be done on the remainder of the first two.
pub proof fn lemma_product_step(a: nat, b: nat, c: nat)
    ensures
        (((a * b) % modulus()) * c) % modulus() == (a * b * c) % modulus(),
{
    lemma_mul_mod_noop_left((a * b) as int, c as int, modulus() as int);
}

/// An element of the field: an integer below [`modulus`], held as two halves
/// of 128 bits each.
#[derive(Clone, Copy, Debug, PartialEq, Eq, Structural, Hash)]
pub struct FieldValue {
    pub(crate) high: u128,
    pub(crate) low: u128,
}

impl FieldValue {
    /// Every field value is reduced: it lies below the modulus.
    #[verifier::type_invariant]
    spec fn reduced(self) -> bool {
        self.value() < modulus()
    }

    /// The integer that this field value stands for.
    pub closed spec fn value(self) -> nat {
        self.high as nat * half_weight() + self.low as nat
    }

    /// The field value that stands for the integer `n`, for `n` below the
    /// modulus.
    pub closed spec fn from_nat(n: nat) -> FieldValue {
        FieldValue { high: (n / half_weight()) as u128, low: (n % half_weight()) as u128 }
    }

    /// The sum of two field values.
    pub open spec fn spec_plus(self, rhs: FieldValue) -> FieldValue {
        FieldValue::from_nat((self.value() + rhs.value()) % modulus())
    }

    /// The product of two field values.
    pub open spec fn spec_times(self, rhs: FieldValue) -> FieldValue {
        FieldValue::from_nat((self.value() * rhs.value()) % modulus())
    }

    /// Two field values that stand for the same integer are the same.
    pub proof fn lemma_value_is_injective(a: FieldValue, b: FieldValue)
        requires
            a.value() == b.value(),
        ensures
            a == b,
    {
    }

    /// `from_nat` and `value` are inverse to each other below the modulus.
    pub proof fn lemma_from_nat(n: nat)
        requires
            n < modulus(),
        ensures
            FieldValue::from_nat(n).value() == n,
    {
    }

    /// A field value, given as the halves of an integer below the modulus.
    pub fn new(high: u128, low: u128) -> (r: Option<FieldValue>)
        ensures
            r is Some <==> (high as nat) * half_weight() + (low as nat) < modulus(),
            r matches Some(v) ==> v.value() == (high as nat) * half_weight() + (low as nat),
    {
        proof {
            lemma_modulus_halves();
        }
        if high < MODULUS_HIGH || (high == MODULUS_HIGH && low < MODULUS_LOW) {
            Some(FieldValue { high, low })
        } else {
            None
        }
    }

    /// The additive identity.
    pub fn zero() -> (r: FieldValue)
        ensures
            r.value() == 0,
            r == FieldValue::from_nat(0),
    {
        FieldValue { high: 0, low: 0 }
    }

    /// The multiplicative identity.
    pub fn one() -> (r: FieldValue)
        ensures
            r.value() == 1,
            r == FieldValue::from_nat(1),
    {
        FieldValue { high: 0, low: 1 }
    }

    /// The field value that stands for `n`.
    pub fn from_u128(n: u128) -> (r: FieldValue)
        ensures
            r.value() == n,
            r == FieldValue::from_nat(n as nat),
    {
        FieldValue { high: 0, low: n }
    }

    /// The high 128 bits of the integer that this field value stands for.
    pub fn high(&self) -> (r: u128)
        ensures
            r == self.value() / half_weight(),
    {
        self.high
    }

    /// The low 128 bits of the integer that this field value stands for.
    pub fn low(&self) -> (r: u128)
        ensures
            r == self.value() % half_weight(),
    {
        self.low
    }

    /// Whether this is the additive identity.
    pub fn is_zero(&self) -> (r: bool)
        ensures
            r == (self.value() == 0),
    {
        self.high == 0 && self.low == 0
    }

    /// Whether this is the multiplicative identity.
    pub fn is_one(&self) -> (r: bool)
        ensures
            r == (self.value() == 1),
    {
        self.high == 0 && self.low == 1
    }

    /// The number of bits that the integer takes in binary.
    pub fn num_bits(&self) -> (bits: u32)
        ensures
            bits == bit_length(self.value()),
    {
        element_num_bits(*self)
    }

    /// The integer as a `u64`, where it has no more than 64 bits.
    pub fn try_to_u64(&self) -> (r: Option<u64>)
        ensures
            r is Some <==> self.value() <= u64::MAX,
            r matches Some(n) ==> n == self.value(),
    {
        proof {
            lemma_bit_length_bound(self.value(), 64);
            lemma2_to64();
        }
        element_try_to_u64(*self)
    }

    /// The sum of `self` and `rhs` in the field.
    pub fn plus(self, rhs: FieldValue) -> (r: FieldValue)
        ensures
            r == self.spec_plus(rhs),
            r.value() == (self.value() + rhs.value()) % modulus(),
    {
        element_sum(self, rhs)
    }

    /// The product of `self` and `rhs` in the field.
    pub fn times(self, rhs: FieldValue) -> (r: FieldValue)
        ensures
            r == self.spec_times(rhs),
            r.value() == (self.value() * rhs.value()) % modulus(),
    {
        element_product(self, rhs)
    }
}

/// Calls `FieldElement::num_bits` of `acir` on the element that `value` stands
/// for. That function walks the element's 256 bits from the highest down,
/// skips the leading zero bits and counts the rest, which is the length of the
/// integer in binary (none for zero).
///
/// The element is made from the 32 big-endian bytes of the value with
/// `FieldElement::from_be_bytes_reduce`. That function reduces modulo the
/// field's order; a field value lies below it and is taken as it is.
#[verifier::external_body]
fn element_num_bits(value: FieldValue) -> (bits: u32)
    ensures
        bits == bit_length(value.value()),
{
    let bytes = [value.high.to_be_bytes(), value.low.to_be_bytes()].concat();
    acir::FieldElement::from_be_bytes_reduce(&bytes).num_bits()
}

/// Calls `FieldElement::try_to_u64` of `acir` on the element that `value`
/// stands for, made as in [`element_num_bits`]. That function answers `None`
/// where the element has more than 64 bits, and else the low 64 bits of its
/// integer.
#[verifier::external_body]
fn element_try_to_u64(value: FieldValue) -> (r: Option<u64>)
    ensures
        r == (if bit_length(value.value()) <= 64 {
            Some((value.value() % 0x1_0000_0000_0000_0000) as u64)
        } else {
            None
        }),
{
    let bytes = [value.high.to_be_bytes(), value.low.to_be_bytes()].concat();
    acir::FieldElement::from_be_bytes_reduce(&bytes).try_to_u64()
}

/// Adds the elements that `a` and `b` stand for, made as in
/// [`element_num_bits`], with the `+` of `acir`'s `FieldElement`, which is the
/// addition of integers modulo the field's order.
///
/// The sum comes back through `FieldElement::to_be_bytes`: the 32 big-endian
/// bytes of its integer, which lies below the order.
#[verifier::external_body]
fn element_sum(a: FieldValue, b: FieldValue) -> (r: FieldValue)
    ensures
        r.value() == (a.value() + b.value()) % modulus(),
{
    let x = acir::FieldElement::from_be_bytes_reduce(&[a.high.to_be_bytes(), a.low.to_be_bytes()].concat());
    let y = acir::FieldElement::from_be_bytes_reduce(&[b.high.to_be_bytes(), b.low.to_be_bytes()].concat());
    let bytes = (x + y).to_be_bytes();
    FieldValue {
        high: u128::from_be_bytes(bytes[..16].try_into().unwrap()),
        low: u128::from_be_bytes(bytes[16..].try_into().unwrap()),
    }
}

/// Multiplies the elements that `a` and `b` stand for with the `*` of
/// `acir`'s `FieldElement`, which is the multiplication of integers modulo the
/// field's order. The elements are made, and the product comes back, as in
/// [`element_sum`].
#[verifier::external_body]
fn element_product(a: FieldValue, b: FieldValue) -> (r: FieldValue)
    ensures
        r.value() == (a.value() * b.value()) % modulus(),
{
    let x = acir::FieldElement::from_be_bytes_reduce(&[a.high.to_be_bytes(), a.low.to_be_bytes()].concat());
    let y = acir::FieldElement::from_be_bytes_reduce(&[b.high.to_be_bytes(), b.low.to_be_bytes()].concat());
    let bytes = (x * y).to_be_bytes();
    FieldValue {
        high: u128::from_be_bytes(bytes[..16].try_into().unwrap()),
        low: u128::from_be_bytes(bytes[16..].try_into().unwrap()),
    }
}

} // verus!
