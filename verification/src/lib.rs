//! Contract logic of a Mimblewimble wallet: the slate steps of a contract
//! (keys, signatures, state transitions, finalization), invoice payment
//! proofs with their binary signing format, the contract view, and the
//! request types of the mixnet client.

pub mod error;
pub mod crypto;
pub mod slate;
pub mod contract;
pub mod mwixnet;
