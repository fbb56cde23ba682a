//! Daily angle-guessing game: seeded round generation, scoring of guesses,
//! the three-round controller and the final verdict.

pub mod calendar;
pub mod controller;
pub mod guess;
pub mod ratio;
pub mod round;
pub mod scoring;
pub mod verdict;
mod rng;
