//! Escape chance calculator: the probability of escaping a hook within a
//! fixed number of attempts, given perk tiers and situational counts.
//!
//! Probabilities are computed exactly, as fractions over powers of one
//! hundred; every bonus of the model is a whole number of hundredths.

pub mod tier;
pub mod math;
pub mod settings;
