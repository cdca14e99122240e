//! Password quality policy engine.
//!
//! A `PWQuality` value holds a set of strength policies (minimum length,
//! per-class credits and minimums, structural limits, similarity to an old
//! password, lookup-backed word checks).  `check` evaluates a candidate
//! password against those policies and returns either a quality score or the
//! first rejection reason, in a fixed order; `generate_password` turns
//! externally supplied random bytes into a password that provably passes the
//! same evaluation.

pub mod classify;
pub mod config;
pub mod distance;
pub mod error;
pub mod evaluate;
pub mod generate;
pub mod score;
pub mod settings;
pub mod textops;

pub use error::Error;
pub use settings::PWQuality;
