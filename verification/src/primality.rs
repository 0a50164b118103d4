//! The probabilistic primality tester (Miller-Rabin) and the
//! rejection-sampling large-prime generator built on it.

use vstd::prelude::*;
use vstd::arithmetic::power2::pow2;
use vstd::arithmetic::power2::lemma_pow2_pos;
use vstd::arithmetic::power2::lemma_pow2_unfold;
use vstd::arithmetic::power2::lemma_pow2_strictly_increases;
use vstd::arithmetic::power2::lemma2_to64;
use num_bigint::BigUint;
use rand_chacha::ChaCha20Rng;
use crate::bignum::big_add;
use crate::bignum::big_clone;
use crate::bignum::big_div;
use crate::bignum::big_eq;
use crate::bignum::big_from_u64;
use crate::bignum::big_le;
use crate::bignum::big_lt;
use crate::bignum::big_mod;
use crate::bignum::big_modpow;
use crate::bignum::big_nat;
use crate::bignum::big_sub;
use crate::bignum::rand_biguint;
use crate::bignum::rand_biguint_range;
use crate::bignum::rng_from_entropy;
use crate::numth::mr_witness;
use crate::numth::odd_part;
use crate::numth::pow_mod;
use crate::numth::two_adic;
use crate::numth::lemma_pow_mod_square;

verus! {

broadcast use lemma_pow2_pos;

/// Miller-Rabin probable-prime test with `k` random rounds, each round
/// drawing its base from a stream freshly seeded from system entropy.
/// A `false` answer is justified: either `n` is a trivial non-prime
/// (at most 1, or even and above 2) or some base in `[2, n)` is a
/// Miller-Rabin compositeness witness. A `true` answer only says that
/// no drawn base was a witness: a probable prime, never a proof.
#[verifier::loop_isolation(false)]
pub fn is_probably_prime(n: &BigUint, k: usize) -> (r: bool)
    ensures
        big_nat(*n) <= 1 ==> r == false,
        big_nat(*n) == 2 ==> r == true,
        big_nat(*n) > 2 && big_nat(*n) % 2 == 0 ==> r == false,
        r ==> big_nat(*n) == 2 || (big_nat(*n) > 2 && big_nat(*n) % 2 == 1),
        k == 0 && big_nat(*n) >= 3 && big_nat(*n) % 2 == 1 ==> r == true,
        !r ==> big_nat(*n) <= 1 || (big_nat(*n) != 2 && big_nat(*n) % 2 == 0) || (exists|a: nat|
            2 <= a && a < big_nat(*n) && mr_witness(big_nat(*n), a)),
{
    let ghost nn: nat = big_nat(*n);
    let one = big_from_u64(1);
    let two = big_from_u64(2);
    let zero = big_from_u64(0);
    if big_le(n, &one) {
        return false;
    }
    if big_eq(n, &two) {
        return true;
    }
    let nmod2 = big_mod(n, &two);
    if big_eq(&nmod2, &zero) {
        return false;
    }
    assert(nn >= 3 && nn % 2 == 1);

    let mut rng = rng_from_entropy();
    let n_minus_one = big_sub(n, &one);
    let ghost nm1: nat = big_nat(n_minus_one);
    proof {
        lemma2_to64();
    }

    // Decompose n - 1 as d * 2^s with d odd.
    let mut d = big_clone(&n_minus_one);
    let ghost mut s: nat = 0;
    while big_eq(&big_mod(&d, &two), &zero)
        invariant
            big_nat(d) >= 1,
            big_nat(d) * pow2(s) == nm1,
            odd_part(big_nat(d)) == odd_part(nm1),
            two_adic(nm1) == s + two_adic(big_nat(d)),
        decreases big_nat(d),
    {
        let ghost dv: nat = big_nat(d);
        let dh = big_div(&d, &two);
        proof {
            lemma_pow2_unfold(s + 1);
            assert((dv / 2) * pow2(s + 1) == dv * pow2(s)) by (nonlinear_arith)
                requires
                    pow2(s + 1) == 2 * pow2(s),
                    dv % 2 == 0,
            ;
        }
        d = dh;
        proof {
            s = s + 1;
        }
    }
    let ghost dd: nat = big_nat(d);
    let ghost ss: nat = s;
    proof {
        assert(dd % 2 == 1);
        assert(odd_part(dd) == dd);
        assert(two_adic(dd) == 0);
        assert(odd_part(nm1) == dd && two_adic(nm1) == ss);
        assert(ss >= 1);
    }

    // Half of n - 1, used to tell when every squaring step is done.
    let half = big_div(&n_minus_one, &two);
    proof {
        assert(2 * big_nat(half) == nm1);
        lemma_pow2_unfold(ss);
        assert(dd * pow2(ss) == 2 * (dd * pow2((ss - 1) as nat))) by (nonlinear_arith)
            requires
                pow2(ss) == 2 * pow2((ss - 1) as nat),
        ;
        assert(big_nat(half) == dd * pow2((ss - 1) as nat));
    }

    let mut round: usize = 0;
    while round < k
        invariant
            round <= k,
        decreases k - round,
    {
        let a = rand_biguint_range(&mut rng, &two, n);
        let ghost aa: nat = big_nat(a);
        let mut x = big_modpow(&a, &d, n);
        let pass_now = big_eq(&x, &one) || big_eq(&x, &n_minus_one);
        if !pass_now {
            let mut e = big_clone(&d);
            let ghost mut i: nat = 0;
            let mut passed = false;
            proof {
                assert(dd * pow2(0) == dd);
            }
            while !passed && big_lt(&e, &half)
                invariant
                    big_nat(e) == dd * pow2(i),
                    !passed ==> big_nat(x) == pow_mod(aa, dd * pow2(i), nn),
                    !passed ==> forall|j: nat|
                        j <= i ==> pow_mod(aa, dd * #[trigger] pow2(j), nn) != nm1,
                decreases nm1 - big_nat(e),
            {
                proof {
                    assert(big_nat(e) >= 1) by (nonlinear_arith)
                        requires
                            big_nat(e) == dd * pow2(i),
                            dd >= 1,
                            pow2(i) >= 1,
                    ;
                }
                let x2 = big_modpow(&x, &two, n);
                let e2 = big_add(&e, &e);
                proof {
                    lemma_pow_mod_square(aa, dd * pow2(i), nn);
                    lemma_pow2_unfold(i + 1);
                    assert(dd * pow2(i + 1) == 2 * (dd * pow2(i))) by (nonlinear_arith)
                        requires
                            pow2(i + 1) == 2 * pow2(i),
                    ;
                }
                x = x2;
                e = e2;
                proof {
                    i = i + 1;
                }
                if big_eq(&x, &n_minus_one) {
                    passed = true;
                }
            }
            if !passed {
                proof {
                    if i + 1 < ss {
                        lemma_pow2_strictly_increases(i, (ss - 1) as nat);
                        assert(dd * pow2(i) < dd * pow2((ss - 1) as nat)) by (nonlinear_arith)
                            requires
                                pow2(i) < pow2((ss - 1) as nat),
                                dd >= 1,
                        ;
                        assert(false);
                    }
                    assert(mr_witness(nn, aa));
                    assert(2 <= aa && aa < nn && mr_witness(nn, aa));
                }
                return false;
            }
        }
        round = round + 1;
    }
    true
}

/// Rejection-sampling generator for a probable prime of at most `bits`
/// bits: draw a random value below `2 ^ bits`, force it odd, test it,
/// and repeat. The search is capped, and `None` reports an exhausted
/// search instead of looping forever on degenerate inputs (with `bits`
/// below 2 no candidate can ever pass).
#[verifier::loop_isolation(false)]
pub fn generate_large_prime(bits: usize, test_rounds: usize, rng: &mut ChaCha20Rng) -> (r: Option<
    BigUint,
>)
    ensures
        r matches Some(p) ==> big_nat(p) % 2 == 1 && big_nat(p) >= 3,
        r matches Some(p) ==> big_nat(p) < pow2(bits as nat),
        bits <= 1 ==> r is None,
{
    let cap: usize = if bits > 1000000 {
        usize::MAX
    } else {
        bits * 64 + 1024
    };
    let one = big_from_u64(1);
    let two = big_from_u64(2);
    let zero = big_from_u64(0);
    proof {
        lemma2_to64();
    }
    let mut iter: usize = 0;
    while iter < cap
        invariant
            iter <= cap,
        decreases cap - iter,
    {
        let c = rand_biguint(rng, bits as u64);
        let cmod = big_mod(&c, &two);
        let candidate = if big_eq(&cmod, &zero) {
            big_add(&c, &one)
        } else {
            c
        };
        proof {
            assert(big_nat(candidate) % 2 == 1);
            if bits >= 1 {
                lemma_pow2_unfold(bits as nat);
                assert(big_nat(candidate) < pow2(bits as nat));
            } else {
                assert(big_nat(candidate) == 1);
            }
        }
        if is_probably_prime(&candidate, test_rounds) {
            proof {
                assert(big_nat(candidate) >= 3);
                assert(bits >= 2);
            }
            return Some(candidate);
        }
        iter = iter + 1;
    }
    None
}

} // verus!
