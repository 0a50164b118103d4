//! Three-coordinate points over big integers and the ring commitment: a
//! dot product of a public point with a substituted sibling point,
//! reduced modulo the universal prime.

use vstd::prelude::*;
use num_bigint::BigUint;
use crate::bignum::big_add;
use crate::bignum::big_clone;
use crate::bignum::big_eq;
use crate::bignum::big_from_u64;
use crate::bignum::big_mod;
use crate::bignum::big_mul;
use crate::bignum::big_nat;

verus! {

/// A point with three big-integer coordinates.
pub struct SpherePoint {
    pub x: BigUint,
    pub y: BigUint,
    pub z: BigUint,
}

impl SpherePoint {
    pub fn new(x: BigUint, y: BigUint, z: BigUint) -> (r: SpherePoint)
        ensures
            big_nat(r.x) == big_nat(x),
            big_nat(r.y) == big_nat(y),
            big_nat(r.z) == big_nat(z),
    {
        SpherePoint { x, y, z }
    }
}

/// The commitment value bound to a point pair: the coordinate-wise dot
/// product of the two points, reduced modulo `m`.
pub open spec fn ring_spec(p: SpherePoint, s: SpherePoint, m: nat) -> nat
    recommends
        m > 0,
{
    (big_nat(p.x) * big_nat(s.x) + big_nat(p.y) * big_nat(s.y) + big_nat(p.z) * big_nat(s.z))
        % m
}

/// What it means for a stored commitment value `v` to validate against a
/// point pair and modulus.
pub open spec fn ring_validates(v: nat, p: SpherePoint, s: SpherePoint, m: nat) -> bool {
    m != 0 && v == ring_spec(p, s, m)
}

/// The ring commitment: one big-integer value, immutable once generated.
pub struct RingMetadata {
    ring_value: BigUint,
}

impl View for RingMetadata {
    type V = nat;

    closed spec fn view(&self) -> nat {
        big_nat(self.ring_value)
    }
}

impl RingMetadata {
    /// Generate the ring commitment for a point pair. A zero modulus is
    /// rejected explicitly; otherwise the stored value is exactly
    /// `ring_spec` of the inputs.
    pub fn generate(
        public: &SpherePoint,
        substituted: &SpherePoint,
        modulus: &BigUint,
    ) -> (r: Option<RingMetadata>)
        ensures
            r is Some <==> big_nat(*modulus) != 0,
            r matches Some(m) ==> m@ == ring_spec(*public, *substituted, big_nat(*modulus)),
    {
        let zero = big_from_u64(0);
        if big_eq(modulus, &zero) {
            None
        } else {
            let xs = big_mul(&public.x, &substituted.x);
            let ys = big_mul(&public.y, &substituted.y);
            let zs = big_mul(&public.z, &substituted.z);
            let dot = big_add(&big_add(&xs, &ys), &zs);
            let ring_value = big_mod(&dot, modulus);
            Some(RingMetadata { ring_value })
        }
    }

    /// Recompute the commitment and compare with the stored value. A
    /// zero modulus never validates.
    pub fn validate(
        &self,
        public: &SpherePoint,
        substituted: &SpherePoint,
        modulus: &BigUint,
    ) -> (r: bool)
        ensures
            r == ring_validates(self@, *public, *substituted, big_nat(*modulus)),
    {
        let zero = big_from_u64(0);
        if big_eq(modulus, &zero) {
            false
        } else {
            let xs = big_mul(&public.x, &substituted.x);
            let ys = big_mul(&public.y, &substituted.y);
            let zs = big_mul(&public.z, &substituted.z);
            let dot = big_add(&big_add(&xs, &ys), &zs);
            let computed = big_mod(&dot, modulus);
            big_eq(&computed, &self.ring_value)
        }
    }

    /// The stored commitment value, as a copy of the big integer.
    pub fn ring_value(&self) -> (r: BigUint)
        ensures
            big_nat(r) == self@,
    {
        big_clone(&self.ring_value)
    }
}

/// Round trip law: a commitment generated from a point pair and a
/// non-zero modulus always validates against that same pair and modulus.
pub proof fn lemma_ring_round_trip(p: SpherePoint, s: SpherePoint, m: nat)
    requires
        m != 0,
    ensures
        ring_validates(ring_spec(p, s, m), p, s, m),
{
}

} // verus!
