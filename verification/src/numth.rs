//! Spec-level number theory: modular exponentiation, the odd-factor /
//! power-of-two decomposition of an even number, and the notion of a
//! Miller-Rabin compositeness witness.

use vstd::prelude::*;
use vstd::arithmetic::power::pow;
use vstd::arithmetic::power::lemma_pow_mod_noop;
use vstd::arithmetic::power::lemma_pow_multiplies;
use vstd::arithmetic::power2::pow2;
use vstd::arithmetic::div_mod::lemma_mod_bound;

verus! {

/// `(b ^ e) % m`: the reference meaning of modular exponentiation.
pub open spec fn pow_mod(b: nat, e: nat, m: nat) -> nat
    recommends
        m > 0,
{
    (pow(b as int, e) % (m as int)) as nat
}

/// The odd factor left after dividing every power of two out of `m`.
pub open spec fn odd_part(m: nat) -> nat
    decreases m,
{
    if m == 0 {
        0
    } else if m % 2 == 0 {
        odd_part(m / 2)
    } else {
        m
    }
}

/// The exponent of two in `m`: how many times `m` halves evenly.
pub open spec fn two_adic(m: nat) -> nat
    decreases m,
{
    if m == 0 {
        0
    } else if m % 2 == 0 {
        1 + two_adic(m / 2)
    } else {
        0
    }
}

/// A Miller-Rabin compositeness witness for an odd `n >= 3`: writing
/// `n - 1 = d * 2^s` with `d` odd, the base `a` is a witness when
/// `a^d mod n` is not 1 and no `a^(d * 2^i) mod n` for `i < s` equals
/// `n - 1`. Such a base proves `n` composite.
pub open spec fn mr_witness(n: nat, a: nat) -> bool
    recommends
        n >= 3,
        n % 2 == 1,
{
    let m = (n - 1) as nat;
    &&& pow_mod(a, odd_part(m), n) != 1
    &&& forall|i: nat|
        i < two_adic(m) ==> pow_mod(a, odd_part(m) * #[trigger] pow2(i), n) != m
}

/// Squaring a residue doubles the exponent: `(a^e mod n)^2 mod n == a^(2e) mod n`.
pub proof fn lemma_pow_mod_square(a: nat, e: nat, n: nat)
    requires
        n > 0,
    ensures
        pow_mod(pow_mod(a, e, n), 2, n) == pow_mod(a, 2 * e, n),
{
    let b = pow(a as int, e);
    lemma_mod_bound(b, n as int);
    assert(pow_mod(a, e, n) as int == b % (n as int));
    lemma_pow_mod_noop(b, 2, n as int);
    lemma_pow_multiplies(a as int, e, 2);
    assert(pow(pow(a as int, e), 2) == pow(a as int, e * 2));
    assert(e * 2 == 2 * e);
}

} // verus!
