use chaos_primes::chaos::generate_chaos_primes;
use chaos_primes::chaos::ChaoticStep;
use chaos_primes::is_probably_prime;
use chaos_primes::ring::SpherePoint;
use num_bigint::BigUint;
use rand::SeedableRng;
use rand_chacha::ChaCha20Rng;

struct Henon {
    a: f64,
    b: f64,
    x: f64,
    y: f64,
}

impl Henon {
    fn next(&mut self, modifier: f64) -> (f64, f64) {
        let adjusted_a = self.a + modifier % 0.1;
        let next_x = 1.0 - adjusted_a * self.x * self.x + self.y;
        let next_y = self.b * self.x;
        self.x = next_x;
        self.y = next_y;
        (self.x, self.y)
    }
}

struct Lorenz {
    sigma: f64,
    rho: f64,
    beta: f64,
    x: f64,
    y: f64,
    z: f64,
    dt: f64,
}

impl Lorenz {
    fn next(&mut self) -> (f64, f64, f64) {
        let dx = self.sigma * (self.y - self.x) * self.dt;
        let dy = (self.x * (self.rho - self.z) - self.y) * self.dt;
        let dz = (self.x * self.y - self.beta * self.z) * self.dt;
        self.x += dx;
        self.y += dy;
        self.z += dz;
        (self.x, self.y, self.z)
    }
}

fn default_chaotic_steps(count: usize) -> Vec<ChaoticStep> {
    let mut henon = Henon { a: 1.4, b: 0.3, x: 0.1, y: 0.3 };
    let mut lorenz = Lorenz {
        sigma: 10.0,
        rho: 28.0,
        beta: 2.6666666666666665,
        x: 0.1,
        y: 0.0,
        z: 0.0,
        dt: 0.01,
    };
    let mut steps = Vec::new();
    for _ in 0..count {
        let (_lx, _ly, lz) = lorenz.next();
        let (hx, hy) = henon.next(lz);
        steps.push(ChaoticStep {
            x_scaled: (hx.abs() * 10.0).floor() as usize,
            y_scaled: (hy.abs() * 5.0).floor() as usize,
        });
    }
    steps
}

#[test]
fn end_to_end_terminates_and_success_is_reproducible() {
    let steps = default_chaotic_steps(50);
    let mut rng = ChaCha20Rng::seed_from_u64(7);
    let outcome = generate_chaos_primes(16, 5, &steps, &mut rng);
    match outcome.found {
        Some(cp) => {
            let i = outcome.attempts.len();
            assert!(i < 50);
            let dynamic_rounds = 5 + steps[i].y_scaled % 5;

            // N recomputed from the returned x, y, z matches and passes
            // the primality test independently.
            let n2 = 3u32 * &cp.x * &cp.x
                + 5u32 * &cp.x * &cp.y
                + 7u32 * &cp.y * &cp.y
                + 11u32 * &cp.x * &cp.z
                + 13u32 * &cp.y * &cp.z
                + 17u32 * &cp.z * &cp.z
                + 19u32;
            assert_eq!(n2, cp.n);
            assert!(is_probably_prime(&cp.n, dynamic_rounds));

            // The ring commitment validates against the point pair it
            // was built from, and against nothing slightly different.
            let public = SpherePoint::new(cp.x.clone(), cp.y.clone(), cp.z.clone());
            let substituted = SpherePoint::new(
                &cp.x + 1u32,
                &cp.y + 1u32,
                &cp.z + 1u32,
            );
            assert!(cp.ring.validate(&public, &substituted, &cp.n));
            let skewed = SpherePoint::new(&cp.x + 2u32, &cp.y + 1u32, &cp.z + 1u32);
            assert!(!cp.ring.validate(&public, &skewed, &cp.n));
        },
        None => {
            assert_eq!(outcome.attempts.len(), 50);
        },
    }
}

#[test]
fn rejected_attempts_record_an_odd_composite() {
    let steps = default_chaotic_steps(50);
    let mut rng = ChaCha20Rng::seed_from_u64(2);
    let outcome = generate_chaos_primes(16, 5, &steps, &mut rng);
    for rec in &outcome.attempts {
        if let Some(n) = &rec.rejected {
            assert!(n >= &BigUint::from(19u32));
            assert_eq!(n % 2u32, BigUint::from(1u32));
        }
    }
}

#[test]
fn zero_attempts_returns_absent_immediately() {
    let steps: Vec<ChaoticStep> = Vec::new();
    let mut rng = ChaCha20Rng::seed_from_u64(3);
    let outcome = generate_chaos_primes(16, 5, &steps, &mut rng);
    assert!(outcome.found.is_none());
    assert!(outcome.attempts.is_empty());
}

#[test]
fn exhausted_searches_are_recorded_per_attempt() {
    // A one-bit budget can only ever draw the candidate 1, which never
    // passes, so every attempt reports an exhausted search.
    let steps = vec![
        ChaoticStep { x_scaled: 0, y_scaled: 0 },
        ChaoticStep { x_scaled: 0, y_scaled: 0 },
        ChaoticStep { x_scaled: 0, y_scaled: 0 },
    ];
    let mut rng = ChaCha20Rng::seed_from_u64(5);
    let outcome = generate_chaos_primes(1, 5, &steps, &mut rng);
    assert!(outcome.found.is_none());
    assert_eq!(outcome.attempts.len(), 3);
    for (idx, rec) in outcome.attempts.iter().enumerate() {
        assert_eq!(rec.attempt, idx + 1);
        assert!(rec.rejected.is_none());
    }
}

#[test]
fn tiny_budget_success_pins_exact_values() {
    // A forced success-or-reject run at a tiny budget: 2-bit candidates
    // are always 3, so N = 3*9 + 5*9 + 7*9 + 11*9 + 13*9 + 17*9 + 19
    // = 523, which is prime, so the first attempt must succeed.
    let steps = vec![ChaoticStep { x_scaled: 1, y_scaled: 0 }];
    let mut rng = ChaCha20Rng::seed_from_u64(11);
    let outcome = generate_chaos_primes(1, 5, &steps, &mut rng);
    match outcome.found {
        Some(cp) => {
            assert_eq!(cp.x, BigUint::from(3u32));
            assert_eq!(cp.y, BigUint::from(3u32));
            assert_eq!(cp.z, BigUint::from(3u32));
            assert_eq!(cp.n, BigUint::from(523u32));
            assert!(outcome.attempts.is_empty());
        },
        None => {
            // Only reachable if a 2-bit candidate search exhausted its
            // cap, which the seed above does not produce.
            panic!("the 2-bit search should have found 3");
        },
    }
}
