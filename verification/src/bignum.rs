//! The trusted boundary to the arbitrary-precision arithmetic of
//! `num_bigint` and to the ChaCha20 random stream of `rand_chacha`.
//! Every wrapper states its effect over `big_nat`, the natural number a
//! `BigUint` holds; everything else in the crate is verified against
//! these contracts.

use vstd::prelude::*;
use vstd::arithmetic::power2::pow2;
use num_bigint::BigUint;
use num_bigint::RandBigInt;
use rand::SeedableRng;
use rand_chacha::ChaCha20Rng;
use crate::numth::pow_mod;

verus! {

#[verifier::external_type_specification]
#[verifier::external_body]
pub struct ExBigUint(BigUint);

#[verifier::external_type_specification]
#[verifier::external_body]
pub struct ExChaCha20Rng(ChaCha20Rng);

// The natural number that a `BigUint`'s digit sequence holds. Every
// wrapper in this file states what the underlying `num_bigint` call
// does to this value.
pub uninterp spec fn big_nat(b: BigUint) -> nat;

/// Relies on `impl From<u64> for BigUint`: the big integer with value `v`.
#[verifier::external_body]
pub(crate) fn big_from_u64(v: u64) -> (r: BigUint)
    ensures
        big_nat(r) == v as nat,
{
    BigUint::from(v)
}

/// Relies on `impl Clone for BigUint`: an identical copy.
#[verifier::external_body]
pub(crate) fn big_clone(a: &BigUint) -> (r: BigUint)
    ensures
        big_nat(r) == big_nat(*a),
{
    a.clone()
}

/// Relies on `impl Add for &BigUint`: exact addition of the two values.
#[verifier::external_body]
pub(crate) fn big_add(a: &BigUint, b: &BigUint) -> (r: BigUint)
    ensures
        big_nat(r) == big_nat(*a) + big_nat(*b),
{
    a + b
}

/// Relies on `impl Sub for &BigUint`: exact subtraction; the call panics
/// when the result would be negative, so that case is excluded here.
#[verifier::external_body]
pub(crate) fn big_sub(a: &BigUint, b: &BigUint) -> (r: BigUint)
    requires
        big_nat(*b) <= big_nat(*a),
    ensures
        big_nat(r) == big_nat(*a) - big_nat(*b),
{
    a - b
}

/// Relies on `impl Mul for &BigUint`: exact multiplication.
#[verifier::external_body]
pub(crate) fn big_mul(a: &BigUint, b: &BigUint) -> (r: BigUint)
    ensures
        big_nat(r) == big_nat(*a) * big_nat(*b),
{
    a * b
}

/// Relies on `impl Div for &BigUint`: truncating division; the call
/// panics on a zero divisor, so that case is excluded here.
#[verifier::external_body]
pub(crate) fn big_div(a: &BigUint, b: &BigUint) -> (r: BigUint)
    requires
        big_nat(*b) != 0,
    ensures
        big_nat(r) == big_nat(*a) / big_nat(*b),
{
    a / b
}

/// Relies on `impl Rem for &BigUint`: the division remainder; the call
/// panics on a zero divisor, so that case is excluded here.
#[verifier::external_body]
pub(crate) fn big_mod(a: &BigUint, b: &BigUint) -> (r: BigUint)
    requires
        big_nat(*b) != 0,
    ensures
        big_nat(r) == big_nat(*a) % big_nat(*b),
{
    a % b
}

/// Relies on `impl PartialEq for BigUint`: equality of the held values.
#[verifier::external_body]
pub(crate) fn big_eq(a: &BigUint, b: &BigUint) -> (r: bool)
    ensures
        r == (big_nat(*a) == big_nat(*b)),
{
    a == b
}

/// Relies on `PartialOrd::lt` for `BigUint`: order of the held values.
#[verifier::external_body]
pub(crate) fn big_lt(a: &BigUint, b: &BigUint) -> (r: bool)
    ensures
        r == (big_nat(*a) < big_nat(*b)),
{
    a < b
}

/// Relies on `PartialOrd::le` for `BigUint`: order of the held values.
#[verifier::external_body]
pub(crate) fn big_le(a: &BigUint, b: &BigUint) -> (r: bool)
    ensures
        r == (big_nat(*a) <= big_nat(*b)),
{
    a <= b
}

/// Relies on `BigUint::modpow`: returns `(base ^ exp) % m` and panics
/// when the modulus is zero, so that case is excluded here.
#[verifier::external_body]
pub(crate) fn big_modpow(base: &BigUint, exp: &BigUint, m: &BigUint) -> (r: BigUint)
    requires
        big_nat(*m) != 0,
    ensures
        big_nat(r) == pow_mod(big_nat(*base), big_nat(*exp), big_nat(*m)),
{
    base.modpow(exp, m)
}

/// Relies on `RandBigInt::gen_biguint`: a random value of at most
/// `bit_size` bits, hence always below `2 ^ bit_size`; being random,
/// nothing more is assumed of it.
#[verifier::external_body]
pub(crate) fn rand_biguint(rng: &mut ChaCha20Rng, bit_size: u64) -> (r: BigUint)
    ensures
        big_nat(r) < pow2(bit_size as nat),
{
    rng.gen_biguint(bit_size)
}

/// Relies on `RandBigInt::gen_biguint_range`: a random value in
/// `[low, high)`; the call panics unless `low < high`, so that case is
/// excluded here. Being random, nothing more is assumed of it.
#[verifier::external_body]
pub(crate) fn rand_biguint_range(
    rng: &mut ChaCha20Rng,
    low: &BigUint,
    high: &BigUint,
) -> (r: BigUint)
    requires
        big_nat(*low) < big_nat(*high),
    ensures
        big_nat(*low) <= big_nat(r),
        big_nat(r) < big_nat(*high),
{
    rng.gen_biguint_range(low, high)
}

/// Relies on `ChaCha20Rng::from_entropy` (via `SeedableRng`): a stream
/// freshly seeded from system entropy; nothing is assumed of its output.
#[verifier::external_body]
pub(crate) fn rng_from_entropy() -> ChaCha20Rng {
    ChaCha20Rng::from_entropy()
}

} // verus!
