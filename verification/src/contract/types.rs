//! Types of the contract steps: the private signing context, proof
//! arguments, wallet records read by the contract view, and the view itself.

use vstd::prelude::*;

use crate::slate::{BlindingFactor, DalekPublicKey, Identifier, SecretKey};

verus! {

/// Kind of payment proof a contract asks for.
#[derive(Debug, Clone, Copy, PartialEq, Eq, Structural)]
pub enum ProofType {
    /// Invoice proof, made by the receiver.
    Invoice,
    /// Legacy proof.
    Legacy,
    /// Sender nonce proof.
    SenderNonce,
}

/// Payment proof arguments of a contract step.
#[derive(Debug, Clone, PartialEq, Eq)]
pub struct ProofArgs {
    /// Do not produce a proof.
    pub suppress_proof: bool,
    /// Kind of proof.
    pub proof_type: ProofType,
    /// Address of the sender.
    pub sender_address: Option<DalekPublicKey>,
}

/// Arguments a party chose when it joined the contract.
#[derive(Debug, Clone, PartialEq, Eq)]
pub struct SetupArgs {
    /// Agreed change of our balance: positive when we receive.
    pub net_change: Option<i64>,
}

/// An input selected into the context.
#[derive(Debug, Clone, PartialEq, Eq)]
pub struct ContextInput {
    /// Key of the spent output.
    pub key_id: Identifier,
    /// Position of the spent output in the output set.
    pub mmr_index: Option<u64>,
    /// Value of the spent output.
    pub amount: u64,
}

/// An output to be created, recorded in the context.
#[derive(Debug, Clone, PartialEq, Eq)]
pub struct ContextOutput {
    /// Key of the output.
    pub key_id: Identifier,
    /// Value of the output.
    pub amount: u64,
}

/// Our private state for one slate.
#[derive(Debug, Clone, PartialEq, Eq)]
pub struct Context {
    /// Secret excess.
    pub sec_key: SecretKey,
    /// Secret nonce.
    pub sec_nonce: SecretKey,
    /// Our share of the kernel offset.
    pub offset: BlindingFactor,
    /// Account of the contract.
    pub parent_key_id: Identifier,
    /// Inputs we spend.
    pub inputs: Vec<ContextInput>,
    /// Outputs we create.
    pub outputs: Vec<ContextOutput>,
    /// Arguments of our setup step.
    pub setup_args: Option<SetupArgs>,
    /// Derivation index of our payment proof address.
    pub payment_proof_derivation_index: Option<u32>,
}

/// A stored output of the wallet.
#[derive(Debug, Clone, PartialEq, Eq)]
pub struct OutputData {
    /// Key of the output.
    pub key_id: Identifier,
    /// Position of the output in the output set.
    pub mmr_index: Option<u64>,
    /// Value of the output.
    pub value: u64,
    /// Whether the output is a coinbase output.
    pub is_coinbase: bool,
}

/// An entry of the wallet's transaction log.
#[derive(Debug, Clone, PartialEq, Eq)]
pub struct TxLogEntry {
    /// Slate the entry belongs to.
    pub tx_slate_id: Option<u128>,
    /// Whether the transaction has confirmed.
    pub confirmed: bool,
    /// Whether the entry records our signature on the slate.
    pub signed: bool,
}

/// The entry records our signature on slate `slate_id`.
pub open spec fn spec_is_signed_tx(tx: TxLogEntry, slate_id: u128) -> bool {
    tx.tx_slate_id == Some(slate_id) && tx.signed
}

/// The entry records our signature on slate `slate_id`.
pub fn is_signed_tx(tx: &TxLogEntry, slate_id: u128) -> (r: bool)
    ensures
        r == spec_is_signed_tx(*tx, slate_id),
{
    match tx.tx_slate_id {
        Some(id) => id == slate_id && tx.signed,
        None => false,
    }
}

/// Whether the slate carries inputs or outputs of ours that we did not add.
#[derive(Debug, Clone, Copy, PartialEq, Eq, Structural)]
pub enum OwnCommitmentStatus {
    /// The check could not be made.
    Unknown,
    /// The slate carries exactly the commitments of ours that we added.
    AsExpected,
    /// The slate carries commitments of ours that we did not add.
    Unexpected,
}

/// What the contract view reports on a slate.
#[derive(Debug, Clone, PartialEq, Eq)]
pub struct ContractView {
    /// Number of participants of the slate.
    pub num_participants: u8,
    /// Balance change the slate suggests, from its state and amount.
    pub suggested_net_change: Option<i64>,
    /// Balance change we agreed to when we joined.
    pub agreed_net_change: Option<i64>,
    /// Number of participants that have signed.
    pub num_sigs: u8,
    /// Whether our transaction for the slate has confirmed.
    pub is_executed: bool,
    /// Whether the slate carries commitments of ours that we did not add.
    pub own_commitment_status: OwnCommitmentStatus,
}

} // verus!
