use chaos_primes::ring::RingMetadata;
use chaos_primes::ring::SpherePoint;
use num_bigint::BigUint;

fn point(x: u64, y: u64, z: u64) -> SpherePoint {
    SpherePoint::new(BigUint::from(x), BigUint::from(y), BigUint::from(z))
}

#[test]
fn ring_value_is_the_dot_product_mod_modulus() {
    // 1*4 + 2*5 + 3*6 = 32, and 32 mod 7 = 4.
    let p = point(1, 2, 3);
    let s = point(4, 5, 6);
    let m = BigUint::from(7u64);
    let meta = RingMetadata::generate(&p, &s, &m).expect("non-zero modulus");
    assert_eq!(meta.ring_value(), BigUint::from(4u64));
}

#[test]
fn round_trip_validates() {
    let p = point(11, 22, 33);
    let s = point(44, 55, 66);
    let m = BigUint::from(1009u64);
    let meta = RingMetadata::generate(&p, &s, &m).expect("non-zero modulus");
    assert!(meta.validate(&p, &s, &m));
}

#[test]
fn mutating_any_coordinate_breaks_validation() {
    let p = point(11, 22, 33);
    let s = point(44, 55, 66);
    let m = BigUint::from(1009u64);
    let meta = RingMetadata::generate(&p, &s, &m).expect("non-zero modulus");
    assert!(!meta.validate(&p, &point(45, 55, 66), &m));
    assert!(!meta.validate(&p, &point(44, 56, 66), &m));
    assert!(!meta.validate(&p, &point(44, 55, 67), &m));
}

#[test]
fn zero_modulus_is_rejected() {
    let p = point(1, 2, 3);
    let s = point(4, 5, 6);
    let zero = BigUint::from(0u64);
    assert!(RingMetadata::generate(&p, &s, &zero).is_none());

    let m = BigUint::from(7u64);
    let meta = RingMetadata::generate(&p, &s, &m).expect("non-zero modulus");
    assert!(!meta.validate(&p, &s, &zero));
}
