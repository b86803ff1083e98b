//! A seeded difference service: a linear congruential pseudo-random
//! generator, reseeded on every call with a host clock reading, drives a
//! single operation that draws a number in [1, 100] and returns it together
//! with the caller's input and their absolute difference.

pub mod rng;
pub mod service;

pub use rng::GeneratorState;
pub use service::RandomResult;
pub use service::calculate_difference;
pub use service::calculate_difference_with_clock;
pub use service::get_info;
pub use service::random_sequence;
