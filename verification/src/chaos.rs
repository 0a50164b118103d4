//! The chaotic candidate orchestrator: one attempt per chaotic step,
//! each attempt generating three candidate primes, combining them into
//! the universal value `N`, testing `N`, and on success binding the
//! candidates to a ring commitment.

use vstd::prelude::*;
use vstd::arithmetic::power2::pow2;
use num_bigint::BigUint;
use rand_chacha::ChaCha20Rng;
use crate::bignum::big_add;
use crate::bignum::big_clone;
use crate::bignum::big_from_u64;
use crate::bignum::big_mul;
use crate::bignum::big_nat;
use crate::primality::generate_large_prime;
use crate::primality::is_probably_prime;
use crate::ring::ring_spec;
use crate::ring::ring_validates;
use crate::ring::RingMetadata;
use crate::ring::SpherePoint;

verus! {

/// One advance of the chaotic pair (attractor step, then map step),
/// reduced to the two magnitudes the search reads from it:
/// `x_scaled = floor(|henon_x| * 10)` and `y_scaled = floor(|henon_y| * 5)`.
pub struct ChaoticStep {
    pub x_scaled: usize,
    pub y_scaled: usize,
}

/// The universal prime polynomial over the three candidate primes:
/// `3x^2 + 5xy + 7y^2 + 11xz + 13yz + 17z^2 + 19`.
pub open spec fn universal_poly(x: nat, y: nat, z: nat) -> nat {
    3 * x * x + 5 * x * y + 7 * y * y + 11 * x * z + 13 * y * z + 17 * z * z + 19
}

/// The ring value bound on success: the dot product of the public point
/// `(x, y, z)` with the substituted point `(x+1, y+1, z+1)`, modulo `n`.
pub open spec fn chaos_ring_value(x: nat, y: nat, z: nat, n: nat) -> nat
    recommends
        n > 0,
{
    (x * (x + 1) + y * (y + 1) + z * (z + 1)) % n
}

/// A diagnostic record for one failed attempt: its 1-based index and
/// the rejected composite `N`, or `None` when one of the candidate
/// searches inside the attempt exhausted its cap.
pub struct AttemptRecord {
    pub attempt: usize,
    pub rejected: Option<BigUint>,
}

/// A successful find: the three candidate primes, the universal value
/// `N` they combine to, and the ring commitment bound to them.
pub struct ChaosPrimes {
    pub x: BigUint,
    pub y: BigUint,
    pub z: BigUint,
    pub n: BigUint,
    pub ring: RingMetadata,
}

/// What the search returns: the find, if any, and one record per
/// failed attempt.
pub struct ChaosSearchOutcome {
    pub found: Option<ChaosPrimes>,
    pub attempts: Vec<AttemptRecord>,
}

/// Everything a successful find promises, given the bit budget
/// `prime_bits` and the chaotic step of the attempt that found it.
pub open spec fn chaos_primes_ok(cp: ChaosPrimes, prime_bits: nat, step: ChaoticStep) -> bool {
    let cb = prime_bits + (step.x_scaled as nat) % 32;
    &&& big_nat(cp.x) % 2 == 1 && 3 <= big_nat(cp.x) && big_nat(cp.x) < pow2(cb)
    &&& big_nat(cp.y) % 2 == 1 && 3 <= big_nat(cp.y) && big_nat(cp.y) < pow2(cb)
    &&& big_nat(cp.z) % 2 == 1 && 3 <= big_nat(cp.z) && big_nat(cp.z) < pow2(cb)
    &&& big_nat(cp.n) == universal_poly(big_nat(cp.x), big_nat(cp.y), big_nat(cp.z))
    &&& big_nat(cp.n) % 2 == 1 && big_nat(cp.n) >= 19
    &&& cp.ring@ == chaos_ring_value(big_nat(cp.x), big_nat(cp.y), big_nat(cp.z), big_nat(cp.n))
}

/// What a rejected value carries: it is the universal polynomial of
/// three odd candidates, each at least 3 and within the bit budget `cb`
/// of the attempt that drew them.
pub open spec fn rejected_poly_of(nv: nat, cb: nat) -> bool {
    exists|x: nat, y: nat, z: nat|
        {
            &&& x % 2 == 1 && 3 <= x && x < pow2(cb)
            &&& y % 2 == 1 && 3 <= y && y < pow2(cb)
            &&& z % 2 == 1 && 3 <= z && z < pow2(cb)
            &&& nv == #[trigger] universal_poly(x, y, z)
        }
}

/// The universal value is odd whenever the three candidates are odd:
/// all six product terms are odd, their sum is even, and adding 19
/// makes the total odd again.
pub proof fn lemma_universal_poly_odd(x: nat, y: nat, z: nat)
    requires
        x % 2 == 1,
        y % 2 == 1,
        z % 2 == 1,
    ensures
        universal_poly(x, y, z) % 2 == 1,
{
    broadcast use vstd::arithmetic::div_mod::lemma_mul_mod_noop_general;
    broadcast use vstd::arithmetic::div_mod::lemma_add_mod_noop;

    assert((3 * x) % 2 == 1);
    assert((3 * x * x) % 2 == 1);
    assert((5 * x) % 2 == 1);
    assert((5 * x * y) % 2 == 1);
    assert((7 * y) % 2 == 1);
    assert((7 * y * y) % 2 == 1);
    assert((11 * x) % 2 == 1);
    assert((11 * x * z) % 2 == 1);
    assert((13 * y) % 2 == 1);
    assert((13 * y * z) % 2 == 1);
    assert((17 * z) % 2 == 1);
    assert((17 * z * z) % 2 == 1);
    assert((3 * x * x + 5 * x * y) % 2 == 0);
    assert((3 * x * x + 5 * x * y + 7 * y * y) % 2 == 1);
    assert((3 * x * x + 5 * x * y + 7 * y * y + 11 * x * z) % 2 == 0);
    assert((3 * x * x + 5 * x * y + 7 * y * y + 11 * x * z + 13 * y * z) % 2 == 1);
    assert((3 * x * x + 5 * x * y + 7 * y * y + 11 * x * z + 13 * y * z + 17 * z * z) % 2 == 0);
    assert((3 * x * x + 5 * x * y + 7 * y * y + 11 * x * z + 13 * y * z + 17 * z * z + 19) % 2
        == 1);
}

/// A successful find's commitment validates against the point pair it
/// was built from: the public point carrying `(x, y, z)` and the
/// substituted point carrying `(x+1, y+1, z+1)`, under modulus `N`.
pub proof fn lemma_chaos_commitment_validates(cp: ChaosPrimes, p: SpherePoint, s: SpherePoint)
    requires
        big_nat(cp.n) != 0,
        cp.ring@ == chaos_ring_value(big_nat(cp.x), big_nat(cp.y), big_nat(cp.z), big_nat(cp.n)),
        big_nat(p.x) == big_nat(cp.x),
        big_nat(p.y) == big_nat(cp.y),
        big_nat(p.z) == big_nat(cp.z),
        big_nat(s.x) == big_nat(cp.x) + 1,
        big_nat(s.y) == big_nat(cp.y) + 1,
        big_nat(s.z) == big_nat(cp.z) + 1,
    ensures
        ring_validates(cp.ring@, p, s, big_nat(cp.n)),
{
    assert(ring_spec(p, s, big_nat(cp.n)) == chaos_ring_value(
        big_nat(cp.x),
        big_nat(cp.y),
        big_nat(cp.z),
        big_nat(cp.n),
    ));
}

enum AttemptOutcome {
    Found(ChaosPrimes),
    Rejected(BigUint),
    Exhausted,
}

/// One attempt: generate three candidates at the given bit budget,
/// combine them into `N`, test `N`, and on success build the
/// commitment over the public and substituted points.
fn run_attempt(chaotic_bits: usize, dynamic_rounds: usize, rng: &mut ChaCha20Rng) -> (r:
    AttemptOutcome)
    ensures
        r matches AttemptOutcome::Found(cp) ==> ({
            &&& big_nat(cp.x) % 2 == 1 && 3 <= big_nat(cp.x) && big_nat(cp.x) < pow2(
                chaotic_bits as nat,
            )
            &&& big_nat(cp.y) % 2 == 1 && 3 <= big_nat(cp.y) && big_nat(cp.y) < pow2(
                chaotic_bits as nat,
            )
            &&& big_nat(cp.z) % 2 == 1 && 3 <= big_nat(cp.z) && big_nat(cp.z) < pow2(
                chaotic_bits as nat,
            )
            &&& big_nat(cp.n) == universal_poly(big_nat(cp.x), big_nat(cp.y), big_nat(cp.z))
            &&& big_nat(cp.n) % 2 == 1 && big_nat(cp.n) >= 19
            &&& cp.ring@ == chaos_ring_value(
                big_nat(cp.x),
                big_nat(cp.y),
                big_nat(cp.z),
                big_nat(cp.n),
            )
        }),
        r matches AttemptOutcome::Rejected(nv) ==> big_nat(nv) % 2 == 1 && big_nat(nv) >= 19
            && rejected_poly_of(big_nat(nv), chaotic_bits as nat),
{
    let x = match generate_large_prime(chaotic_bits, dynamic_rounds, rng) {
        Some(v) => v,
        None => {
            return AttemptOutcome::Exhausted;
        },
    };
    let y = match generate_large_prime(chaotic_bits, dynamic_rounds, rng) {
        Some(v) => v,
        None => {
            return AttemptOutcome::Exhausted;
        },
    };
    let z = match generate_large_prime(chaotic_bits, dynamic_rounds, rng) {
        Some(v) => v,
        None => {
            return AttemptOutcome::Exhausted;
        },
    };

    // N = 3x^2 + 5xy + 7y^2 + 11xz + 13yz + 17z^2 + 19, exactly as the
    // spec function writes it.
    let c3 = big_from_u64(3);
    let c5 = big_from_u64(5);
    let c7 = big_from_u64(7);
    let c11 = big_from_u64(11);
    let c13 = big_from_u64(13);
    let c17 = big_from_u64(17);
    let c19 = big_from_u64(19);
    let t1 = big_mul(&big_mul(&c3, &x), &x);
    let t2 = big_mul(&big_mul(&c5, &x), &y);
    let t3 = big_mul(&big_mul(&c7, &y), &y);
    let t4 = big_mul(&big_mul(&c11, &x), &z);
    let t5 = big_mul(&big_mul(&c13, &y), &z);
    let t6 = big_mul(&big_mul(&c17, &z), &z);
    let s1 = big_add(&t1, &t2);
    let s2 = big_add(&s1, &t3);
    let s3 = big_add(&s2, &t4);
    let s4 = big_add(&s3, &t5);
    let s5 = big_add(&s4, &t6);
    let n = big_add(&s5, &c19);
    proof {
        assert(big_nat(n) == universal_poly(big_nat(x), big_nat(y), big_nat(z)));
    }

    if is_probably_prime(&n, dynamic_rounds) {
        let one = big_from_u64(1);
        let public_point = SpherePoint::new(big_clone(&x), big_clone(&y), big_clone(&z));
        let substituted_point = SpherePoint::new(
            big_add(&x, &one),
            big_add(&y, &one),
            big_add(&z, &one),
        );
        let meta = match RingMetadata::generate(&public_point, &substituted_point, &n) {
            Some(m) => m,
            None => {
                proof {
                    assert(false);
                }
                return AttemptOutcome::Exhausted;
            },
        };
        AttemptOutcome::Found(ChaosPrimes { x, y, z, n, ring: meta })
    } else {
        proof {
            lemma_universal_poly_odd(big_nat(x), big_nat(y), big_nat(z));
            assert(rejected_poly_of(big_nat(n), chaotic_bits as nat));
        }
        AttemptOutcome::Rejected(n)
    }
}

/// The attempt loop. One chaotic step per attempt: the step's scaled
/// magnitudes perturb the bit budget (`+ x_scaled % 32`) and the round
/// count (`+ y_scaled % 5`); three candidate primes are generated with
/// those parameters, combined into `N`, and `N` is tested. The loop
/// stops at the first success; after the last step it reports an
/// absent result, with one record per failed attempt either way. An
/// empty step list returns the absent result at once, before any
/// candidate generation.
#[verifier::loop_isolation(false)]
pub fn generate_chaos_primes(
    prime_bits: usize,
    base_test_rounds: usize,
    steps: &Vec<ChaoticStep>,
    rng: &mut ChaCha20Rng,
) -> (r: ChaosSearchOutcome)
    requires
        prime_bits + 31 <= usize::MAX,
        base_test_rounds + 4 <= usize::MAX,
    ensures
        steps@.len() == 0 ==> r.found is None && r.attempts@.len() == 0 && *final(rng) == *old(
            rng,
        ),
        r.found is None ==> r.attempts@.len() == steps@.len(),
        forall|j: int|
            0 <= j < r.attempts@.len() ==> (#[trigger] r.attempts@[j]).attempt == j + 1,
        forall|j: int|
            0 <= j < r.attempts@.len() ==> ((#[trigger] r.attempts@[j]).rejected matches Some(nv)
                ==> big_nat(nv) % 2 == 1 && big_nat(nv) >= 19 && rejected_poly_of(
                    big_nat(nv),
                    prime_bits as nat + (steps@[j].x_scaled as nat) % 32,
                )),
        r.found matches Some(cp) ==> ({
            let idx = r.attempts@.len() as int;
            &&& idx < steps@.len()
            &&& chaos_primes_ok(cp, prime_bits as nat, steps@[idx])
        }),
{
    if steps.len() == 0 {
        return ChaosSearchOutcome { found: None, attempts: Vec::new() };
    }
    let mut attempts: Vec<AttemptRecord> = Vec::new();
    let mut k: usize = 0;
    while k < steps.len()
        invariant
            k <= steps@.len(),
            attempts@.len() == k as nat,
            forall|j: int|
                0 <= j < attempts@.len() ==> (#[trigger] attempts@[j]).attempt == j + 1,
            forall|j: int|
                0 <= j < attempts@.len() ==> ((#[trigger] attempts@[j]).rejected matches Some(nv)
                    ==> big_nat(nv) % 2 == 1 && big_nat(nv) >= 19 && rejected_poly_of(
                        big_nat(nv),
                        prime_bits as nat + (steps@[j].x_scaled as nat) % 32,
                    )),
        decreases steps@.len() - k,
    {
        let step = &steps[k];
        let chaotic_bits = prime_bits + step.x_scaled % 32;
        let dynamic_rounds = base_test_rounds + step.y_scaled % 5;
        match run_attempt(chaotic_bits, dynamic_rounds, rng) {
            AttemptOutcome::Found(cp) => {
                return ChaosSearchOutcome { found: Some(cp), attempts };
            },
            AttemptOutcome::Rejected(nv) => {
                attempts.push(AttemptRecord { attempt: k + 1, rejected: Some(nv) });
            },
            AttemptOutcome::Exhausted => {
                attempts.push(AttemptRecord { attempt: k + 1, rejected: None });
            },
        }
        k = k + 1;
    }
    ChaosSearchOutcome { found: None, attempts }
}

} // verus!
