//! Bayesian updating of a named hypothesis: the rules that decide whether a
//! posterior probability is defined, the spellings of the command words, the
//! record format of a stored prior, and the store that keeps such records.
//!
//! Probabilities are IEEE 754 binary64 values. This crate never does
//! arithmetic on them: it holds each one by its bit pattern, as a
//! [`Binary64`], and reasons about the exact rational number that the pattern
//! stands for.

pub mod arguments;
pub mod binary64;
pub mod database;
pub mod failure;
pub mod options;
pub mod posterior;
pub mod record;
pub mod report;
pub mod store;
pub mod text;
pub mod wizard;

pub use arguments::{Args, Operation};
pub use binary64::Binary64;
pub use failure::Failure;
pub use options::{Evidence, OutputFormat, UpdateHypothesis};
pub use posterior::calculate_posterior_probability;
pub use report::report_posterior_probability;
pub use store::{get_prior, remove_prior, set_prior, PriorStore};
