//! Contract steps on a slate, payment proofs, and contract actions.

pub mod actions;
pub mod proofs;
pub mod slate;
pub mod types;
