//! Percentage growth of a measurement over its baseline, on IEEE-754 doubles
//! handled as their 64-bit patterns.
//!
//! The one rule of the computation is verified here: a baseline that compares
//! equal to zero means "no growth", and every other baseline leaves the
//! relative change untouched, bit for bit.

pub mod double;
pub mod growth;
