//! A verified core for a chaos-modulated large-prime search: a
//! Miller-Rabin probable-prime tester, a rejection-sampling prime
//! generator, a modular ring commitment over three-coordinate points,
//! and the attempt loop that combines candidate primes into one large
//! "universal" value and binds it to a commitment.

pub mod bignum;
pub mod chaos;
pub mod numth;
pub mod primality;
pub mod ring;

pub use primality::generate_large_prime;
pub use primality::is_probably_prime;
