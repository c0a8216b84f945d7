//! Resolution of a "sample" relational operator into primitive plan nodes,
//! together with the deterministic xorshift generator whose stream the
//! sampling scalar functions reproduce.

pub mod doubles;
pub mod error;
pub mod plan;
pub mod sample;
pub mod state;
pub mod xorshift;
