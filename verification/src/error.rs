//! Errors of the contract library.

use vstd::prelude::*;

use crate::slate::{PaymentProofType, SlateState};

verus! {

/// Errors raised by contract steps, payment proofs and the contract view.
#[derive(Debug, Clone, PartialEq, Eq)]
pub enum Error {
    /// The slate amount does not fit in an `i64`.
    AmountExceedsI64(u64),
    /// The slate is in the `Unknown` state and cannot be read as a contract.
    UnknownSlateState,
    /// Only one or two participants are supported.
    UnsupportedNumParticipants(u8),
    /// The memo is longer than the memo limit, in bytes.
    MemoTooLong { len: usize, max: usize },
    /// Only invoice contract proofs are supported.
    UnsupportedProofType,
    /// A participant index beyond the participant list of the slate.
    ParticipantIndexOutOfRange { index: usize, len: usize },
    /// No sender address was given, and the slate carries none.
    NoSenderAddressProvided,
    /// The payment proof of the slate carries no timestamp.
    MissingProofTimestamp,
    /// A field of the proof does not fit its binary encoding.
    ProofSerialization { expected: Vec<u8>, received: Vec<u8> },
    /// The proof is not of the expected type.
    ProofTypeMismatch { expected_type: PaymentProofType, found_type: PaymentProofType },
    /// The proof carries no promise signature.
    MissingPromiseSignature,
    /// The promise signature does not verify under the recipient address.
    InvalidRecipientSignature,
    /// The proof carries no witness data.
    MissingWitnessData,
    /// The receiver nonce of the promise is not the one in the signature.
    ReceiverNonceMismatch,
    /// A partial signature does not verify.
    PartialSignatureInvalid,
    /// The receiver part of the kernel signature does not match the promise.
    ReceiverSignatureMismatch,
    /// A point, key or signature operation of secp256k1 failed.
    Secp,
    /// The proof timestamp is outside the range of calendar dates.
    InvalidProofTimestamp(i64),
    /// The slate state cannot be advanced.
    CannotAdvanceState(SlateState),
    /// The slate does not hold as many participants as it declares.
    ParticipantCountMismatch { declared: u8, present: usize },
    /// The slate carries our public excess paired with a nonce that is not ours.
    ForeignNonceForOurExcess,
    /// The slate already holds the participants it declares.
    ParticipantsComplete(u8),
    /// None of the participants of the slate belongs to the signing context.
    ContextNotInSlate,
    /// The slate carries no transaction.
    MissingTransaction,
    /// The aggregate signature does not verify.
    FinalSignatureInvalid,
    /// A participant has not signed yet.
    MissingPartialSignature(usize),
    /// The kernel features of the slate are not supported.
    InvalidKernelFeatures(u8),
    /// The stored output record does not match the context input it is read for.
    CoinMismatch(usize),
    /// A commitment or range proof could not be built by the keychain.
    Keychain,
    /// A key identifier whose depth (its first byte) exceeds the four levels
    /// a key path holds.
    KeyIdTooDeep(u8),
    /// The kernel of the finalized transaction could not be built.
    KernelBuild,
    /// Text that is not hex, as the hex decoder reports it.
    InvalidHex(String),
    /// An x25519 public key must be 32 bytes; this many were decoded.
    XPubKeyLength(usize),
}

} // verus!
