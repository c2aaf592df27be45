//! Types of the mixnet requests that the rest of the library uses.

use vstd::prelude::*;

use crate::slate::{Commitment, SecretKey};

pub mod vec_xpubkey_hex;

verus! {

/// x25519 public key of a mix server.
pub type XPublicKey = [u8; 32];

/// Commitment signature over an output: the public nonce commitment and the
/// two response scalars.
#[derive(Debug, Clone, PartialEq, Eq)]
pub struct ComSignature {
    /// Public nonce commitment.
    pub pub_nonce: Commitment,
    /// Response scalar for the value.
    pub s: SecretKey,
    /// Response scalar for the blinding factor.
    pub t: SecretKey,
}

/// Onion-encrypted payloads for a route of mix servers.
#[derive(Debug, Clone, PartialEq, Eq)]
pub struct Onion {
    /// Ephemeral x25519 public key of the sender.
    pub ephemeral_pubkey: XPublicKey,
    /// Commitment of the output being mixed.
    pub commit: Commitment,
    /// Encrypted payloads, one per hop.
    pub enc_payloads: Vec<Vec<u8>>,
}

/// A swap request.
#[derive(Debug, Clone, PartialEq, Eq)]
pub struct SwapReq {
    /// Com signature.
    pub comsig: ComSignature,
    /// Onion.
    pub onion: Onion,
}

/// Mixnet request creation parameters.
#[derive(Debug, Clone, PartialEq, Eq)]
pub struct MixnetReqCreationParams {
    /// x25519 onion public keys of the mix servers, in route order.
    pub server_pubkeys: Vec<XPublicKey>,
    /// Fee per hop.
    pub fee_per_hop: u64,
}

} // verus!
