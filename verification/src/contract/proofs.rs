//! Early payment proofs for contracts. The receiver of a payment signs a
//! promise (an invoice proof) with its proof address; the sender can later
//! check the promise, and check it against the kernel of the transaction.

use vstd::prelude::*;

use crate::contract::types::{Context, ProofArgs, ProofType};
use crate::crypto::{
    aggsig_partial_verifies, aggsig_subtraction, be_i64_bytes, be_u64_bytes, blake2b_256, lemma_be_u64_injective,
    blake2b_256_digest, chrono_timestamp_in_range, commit_to_public_key, datetime_from_timestamp, ed25519_public, ed25519_public_key, ed25519_sign,
    ed25519_signature, ed25519_verifies, ed25519_verify, public_key_parse, secp_public_key,
    secp_commit_public_key, secp_public_key_parse, subtract_signature, verify_partial_sig,
    write_i64_be, write_u64_be,
};
use crate::error::Error;
use crate::slate::{
    append_from, context_index, duplicate_memo, one_byte, utf8_bytes, Commitment, DalekPublicKey, DalekSignature, Identifier, Message,
    PaymentInfo, PaymentMemo, PaymentProofType, PublicKey, SecretKey, Signature, Slate,
};

verus! {

/// Succeeds exactly for invoice proofs, the only kind contracts support.
pub fn check_proof_type(proof_type: &ProofType) -> (r: Result<(), Error>)
    ensures
        r is Ok <==> *proof_type == ProofType::Invoice,
        r is Err ==> r == Err::<(), Error>(Error::UnsupportedProofType),
{
    match proof_type {
        ProofType::Invoice => Ok(()),
        _ => Err(Error::UnsupportedProofType),
    }
}

/// The first 32 bytes of a partial signature are the x coordinate of the
/// signer's public nonce, which follows the prefix byte of the compressed key.
pub open spec fn nonce_matches(sig: Signature, nonce: PublicKey) -> bool {
    sig@.subrange(0, 32) == nonce@.subrange(1, 33)
}

/// A receiver's partial signature: made with the receiver's nonce and valid
/// for the receiver's excess.
pub open spec fn receiver_sig_valid(
    sig: Signature,
    receiver_nonce: PublicKey,
    pub_nonce_sum: PublicKey,
    receiver_excess: PublicKey,
    pub_blind_sum: PublicKey,
    msg: Message,
) -> bool {
    &&& nonce_matches(sig, receiver_nonce)
    &&& aggsig_partial_verifies(sig@, pub_nonce_sum@, receiver_excess@, pub_blind_sum@, msg@)
}

/// Checks that `sig` is the receiver's partial signature: it carries the
/// receiver's nonce and verifies for the receiver's excess.
pub fn verify_receiver_sig(
    sig: &Signature,
    receiver_nonce: &PublicKey,
    pub_nonce_sum: &PublicKey,
    receiver_excess: &PublicKey,
    pub_blind_sum: &PublicKey,
    msg: &Message,
) -> (r: Result<(), Error>)
    ensures
        r is Ok <==> receiver_sig_valid(*sig, *receiver_nonce, *pub_nonce_sum, *receiver_excess, *pub_blind_sum, *msg),
        !nonce_matches(*sig, *receiver_nonce) ==> r == Err::<(), Error>(Error::ReceiverNonceMismatch),
        nonce_matches(*sig, *receiver_nonce) && r is Err ==> r == Err::<(), Error>(Error::PartialSignatureInvalid),
{
    let mut i: usize = 0;
    while i < 32
        invariant
            i <= 32,
            forall|j: int| 0 <= j < i ==> sig@[j] == receiver_nonce@[j + 1],
        decreases 32 - i,
    {
        if sig[i] != receiver_nonce[i + 1] {
            assert(sig@.subrange(0, 32)[i as int] != receiver_nonce@.subrange(1, 33)[i as int]);
            return Err(Error::ReceiverNonceMismatch);
        }
        i = i + 1;
    }
    assert(sig@.subrange(0, 32) =~= receiver_nonce@.subrange(1, 33));
    if verify_partial_sig(sig, pub_nonce_sum, receiver_excess, pub_blind_sum, msg) {
        Ok(())
    } else {
        Err(Error::PartialSignatureInvalid)
    }
}

/// All elements required to validate a proof against the kernel.
#[derive(Debug, Clone, PartialEq, Eq)]
pub struct ProofWitness {
    /// Kernel index, supplied so verifiers can look up the kernel without an
    /// expensive lookup operation.
    pub kernel_index: u64,
    /// Kernel commitment, supplied so the prover can recompute the index if
    /// required after a reorg.
    pub kernel_commitment: Commitment,
    /// Sender partial signature, used to recover the receiver partial signature.
    pub sender_partial_sig: Signature,
}

/// Payment proof, extracted from a slate for signing or exported from stored
/// transaction data.
#[derive(Debug, Clone, PartialEq, Eq)]
pub struct InvoiceProof {
    /// Proof type.
    pub proof_type: PaymentProofType,
    /// Amount.
    pub amount: u64,
    /// Receiver's public nonce from signing.
    pub receiver_public_nonce: PublicKey,
    /// Receiver's public excess from signing.
    pub receiver_public_excess: PublicKey,
    /// Sender's address.
    pub sender_address: DalekPublicKey,
    /// Timestamp provided by the recipient when signing.
    pub timestamp: i64,
    /// Optional payment memo.
    pub memo: Option<PaymentMemo>,
    /// The recipient's signature over the binary form of the proof.
    pub promise_signature: Option<DalekSignature>,
    /// Witness kernel data, not part of the binary form.
    pub witness_data: Option<ProofWitness>,
}

/// The bytes of a memo in the binary proof: its text, or nothing.
pub open spec fn memo_bytes(memo: Option<PaymentMemo>) -> Seq<u8> {
    match memo {
        Some(m) => utf8_bytes(m@),
        None => Seq::empty(),
    }
}

/// The amount field of the binary proof is seven bytes wide.
pub open spec fn amount_fits(amount: u64) -> bool {
    amount < 0x100000000000000
}

/// The binary form of a proof, the message of the promise signature: type
/// byte, seven-byte big-endian amount, receiver nonce and excess, sender
/// address, big-endian timestamp and the blake2b digest of the memo.
pub open spec fn invoice_proof_message(p: InvoiceProof) -> Seq<u8> {
    seq![p.proof_type.spec_as_u8()] + be_u64_bytes(p.amount).subrange(1, 8)
        + p.receiver_public_nonce@ + p.receiver_public_excess@ + p.sender_address@
        + be_i64_bytes(p.timestamp) + blake2b_256(memo_bytes(p.memo))
}

/// The signed message of a proof binds its fields: two proofs whose amounts
/// fit the binary form and whose messages are the same agree on their type,
/// amount, receiver nonce and excess, sender address and timestamp (the memo
/// enters the message only by its digest).
pub proof fn lemma_message_binds_fields(a: InvoiceProof, b: InvoiceProof)
    requires
        amount_fits(a.amount),
        amount_fits(b.amount),
        invoice_proof_message(a) == invoice_proof_message(b),
    ensures
        a.proof_type == b.proof_type,
        a.amount == b.amount,
        a.receiver_public_nonce == b.receiver_public_nonce,
        a.receiver_public_excess == b.receiver_public_excess,
        a.sender_address == b.sender_address,
        a.timestamp == b.timestamp,
{
    let (ma, mb) = (invoice_proof_message(a), invoice_proof_message(b));
    let (ba, bb) = (be_u64_bytes(a.amount), be_u64_bytes(b.amount));
    assert(ma[0] == a.proof_type.spec_as_u8() && mb[0] == b.proof_type.spec_as_u8());
    assert(ma.subrange(1, 8) =~= ba.subrange(1, 8));
    assert(mb.subrange(1, 8) =~= bb.subrange(1, 8));
    assert(ba =~= bb) by {
        assert forall|k: int| 1 <= k < 8 implies ba[k] == bb[k] by {
            assert(ma.subrange(1, 8)[k - 1] == mb.subrange(1, 8)[k - 1]);
        }
    }
    lemma_be_u64_injective(a.amount, b.amount);
    assert(ma.subrange(8, 41) =~= a.receiver_public_nonce@ && mb.subrange(8, 41) =~= b.receiver_public_nonce@);
    assert(a.receiver_public_nonce =~= b.receiver_public_nonce);
    assert(ma.subrange(41, 74) =~= a.receiver_public_excess@ && mb.subrange(41, 74) =~= b.receiver_public_excess@);
    assert(a.receiver_public_excess =~= b.receiver_public_excess);
    assert(ma.subrange(74, 106) =~= a.sender_address@ && mb.subrange(74, 106) =~= b.sender_address@);
    assert(a.sender_address =~= b.sender_address);
    assert(ma.subrange(106, 114) =~= be_i64_bytes(a.timestamp));
    assert(mb.subrange(106, 114) =~= be_i64_bytes(b.timestamp));
    lemma_be_u64_injective(a.timestamp as u64, b.timestamp as u64);
    let (ta, tb) = (a.timestamp, b.timestamp);
    assert(ta == tb) by (bit_vector)
        requires
            ta as u64 == tb as u64,
    ;
}

/// The error raised when the amount does not fit the binary form.
pub open spec fn amount_error(e: Error, amount: u64) -> bool {
    e matches Error::ProofSerialization { expected, received }
        && expected@ == seq![0u8] && received@ == seq![(amount / 0x100000000000000) as u8]
}

/// The binary form of an invoice proof, as signed by the recipient.
pub struct InvoiceProofBin<'a>(pub &'a InvoiceProof);

impl<'a> InvoiceProofBin<'a> {
    /// Writes the binary form of the proof; fails when the amount does not
    /// fit in seven bytes.
    pub fn write(&self) -> (r: Result<Vec<u8>, Error>)
        ensures
            r is Ok <==> amount_fits(self.0.amount),
            r matches Ok(v) ==> v@ == invoice_proof_message(*self.0),
            r matches Ok(v) ==> v@.len() == 146,
            r matches Err(e) ==> amount_error(e, self.0.amount),
    {
        let p = self.0;
        let mut out: Vec<u8> = Vec::new();
        out.push(p.proof_type.as_u8());
        let amount_bytes = write_u64_be(p.amount);
        if amount_bytes[0] > 0 {
            return Err(Error::ProofSerialization { expected: one_byte(0), received: one_byte(amount_bytes[0]) });
        }
        append_from(&mut out, amount_bytes.as_slice(), 1);
        append_from(&mut out, p.receiver_public_nonce.as_slice(), 0);
        append_from(&mut out, p.receiver_public_excess.as_slice(), 0);
        append_from(&mut out, p.sender_address.as_slice(), 0);
        let ts = write_i64_be(p.timestamp);
        append_from(&mut out, ts.as_slice(), 0);
        let digest = match &p.memo {
            Some(m) => blake2b_256_digest(m.as_str().as_bytes()),
            None => {
                let empty: Vec<u8> = Vec::new();
                blake2b_256_digest(empty.as_slice())
            },
        };
        proof {
            assert(p.memo is None ==> Seq::<u8>::empty() =~= memo_bytes(p.memo));
        }
        append_from(&mut out, digest.as_slice(), 0);
        assert(p.receiver_public_nonce@.subrange(0, 33) =~= p.receiver_public_nonce@);
        assert(p.receiver_public_excess@.subrange(0, 33) =~= p.receiver_public_excess@);
        assert(p.sender_address@.subrange(0, 32) =~= p.sender_address@);
        assert(ts@.subrange(0, 8) =~= ts@);
        assert(digest@.subrange(0, 32) =~= digest@);
        assert(out@ =~= invoice_proof_message(*p));
        Ok(out)
    }
}

/// A proof with the promise signature `sig`.
pub open spec fn with_promise(p: InvoiceProof, sig: DalekSignature) -> InvoiceProof {
    InvoiceProof { promise_signature: Some(sig), ..p }
}

/// The promise of `p` is an invoice promise signed by `recipient` over the
/// binary form of `p`.
pub open spec fn promise_signature_valid(p: InvoiceProof, recipient: DalekPublicKey) -> bool {
    &&& p.proof_type == PaymentProofType::Invoice
    &&& p.promise_signature is Some
    &&& amount_fits(p.amount)
    &&& ed25519_verifies(recipient@, invoice_proof_message(p), p.promise_signature->0@)
}

/// `e` is the error `verify_promise_signature` raises on `p` when the promise
/// is not valid.
pub open spec fn promise_error(e: Error, p: InvoiceProof, recipient: DalekPublicKey) -> bool {
    if p.proof_type != PaymentProofType::Invoice {
        e == (Error::ProofTypeMismatch { expected_type: PaymentProofType::Invoice, found_type: p.proof_type })
    } else if p.promise_signature is None {
        e == Error::MissingPromiseSignature
    } else if !amount_fits(p.amount) {
        amount_error(e, p.amount)
    } else {
        e == Error::InvalidRecipientSignature
    }
}

/// The error `InvoiceProof::from_slate` raises, if any.
pub open spec fn from_slate_error(slate: Slate, index: usize, sender: Option<DalekPublicKey>) -> Option<Error> {
    if index >= slate.participant_data@.len() {
        Some(Error::ParticipantIndexOutOfRange { index, len: slate.participant_data@.len() as usize })
    } else if sender is None && !(slate.payment_proof matches Some(p) && p.sender_address is Some) {
        Some(Error::NoSenderAddressProvided)
    } else if slate.payment_proof matches Some(p) && p.timestamp is None {
        Some(Error::MissingProofTimestamp)
    } else {
        None
    }
}

/// Two optional memos hold the same text.
pub open spec fn same_memo(a: Option<PaymentMemo>, b: Option<PaymentMemo>) -> bool {
    &&& (a is Some <==> b is Some)
    &&& a matches Some(m) ==> m@ == b->0@
}

/// The proof `InvoiceProof::from_slate` extracts from `slate` for the
/// participant at `index`: the slate's payment information where it has some,
/// an invoice proof with a zero timestamp where it has none.
pub open spec fn spec_from_slate(slate: Slate, index: usize, sender: Option<DalekPublicKey>) -> InvoiceProof {
    InvoiceProof {
        proof_type: match slate.payment_proof {
            Some(p) => p.proof_type,
            None => PaymentProofType::Invoice,
        },
        amount: slate.amount,
        receiver_public_nonce: slate.participant_data@[index as int].public_nonce,
        receiver_public_excess: slate.participant_data@[index as int].public_blind_excess,
        sender_address: match sender {
            Some(a) => a,
            None => slate.payment_proof->0.sender_address->0,
        },
        timestamp: match slate.payment_proof {
            Some(p) => p.timestamp->0,
            None => 0,
        },
        memo: match slate.payment_proof {
            Some(p) => p.memo,
            None => None,
        },
        promise_signature: match slate.payment_proof {
            Some(p) => p.promise_signature,
            None => None,
        },
        witness_data: None,
    }
}

/// Two proofs agree on every field, memos by their text.
pub open spec fn same_proof(a: InvoiceProof, b: InvoiceProof) -> bool {
    &&& a.proof_type == b.proof_type
    &&& a.amount == b.amount
    &&& a.receiver_public_nonce == b.receiver_public_nonce
    &&& a.receiver_public_excess == b.receiver_public_excess
    &&& a.sender_address == b.sender_address
    &&& a.timestamp == b.timestamp
    &&& same_memo(a.memo, b.memo)
    &&& a.promise_signature == b.promise_signature
    &&& a.witness_data == b.witness_data
}

/// Proofs that agree on every field have the same binary form and the same
/// valid promises.
pub proof fn lemma_same_proof(a: InvoiceProof, b: InvoiceProof)
    requires
        same_proof(a, b),
    ensures
        invoice_proof_message(a) == invoice_proof_message(b),
        forall|r: DalekPublicKey| promise_signature_valid(a, r) == promise_signature_valid(b, r),
{
    lemma_message_depends_on_memo_text(a, b);
}

/// Two proofs with the same fields and memo text have the same binary form.
pub proof fn lemma_message_depends_on_memo_text(a: InvoiceProof, b: InvoiceProof)
    requires
        a.proof_type == b.proof_type,
        a.amount == b.amount,
        a.receiver_public_nonce == b.receiver_public_nonce,
        a.receiver_public_excess == b.receiver_public_excess,
        a.sender_address == b.sender_address,
        a.timestamp == b.timestamp,
        same_memo(a.memo, b.memo),
    ensures
        invoice_proof_message(a) == invoice_proof_message(b),
{
    assert(memo_bytes(a.memo) == memo_bytes(b.memo));
}

/// The bytes of a public key that a kernel signature encodes its public nonce
/// sum by: the odd-y prefix, then the x coordinate held in the signature.
pub open spec fn kernel_nonce_sum_bytes(excess_sig: Signature) -> Seq<u8> {
    seq![3u8] + excess_sig@.subrange(0, 32)
}

/// `receiver_sig_valid` on the byte sequences named by the primitives.
pub open spec fn receiver_sig_valid_bytes(
    sig: Seq<u8>,
    receiver_nonce: Seq<u8>,
    pub_nonce_sum: Seq<u8>,
    receiver_excess: Seq<u8>,
    pub_blind_sum: Seq<u8>,
    msg: Seq<u8>,
) -> bool {
    &&& sig.subrange(0, 32) == receiver_nonce.subrange(1, 33)
    &&& aggsig_partial_verifies(sig, pub_nonce_sum, receiver_excess, pub_blind_sum, msg)
}

/// The proof's promise is valid, and the kernel signature `excess_sig`, less
/// the sender's partial signature, leaves a partial signature that the
/// receiver made with the nonce and excess of the promise.
pub open spec fn witness_valid(p: InvoiceProof, recipient: DalekPublicKey, excess_sig: Signature, msg: Message) -> bool {
    &&& p.witness_data is Some
    &&& promise_signature_valid(p, recipient)
    &&& aggsig_subtraction(excess_sig@, p.witness_data->0.sender_partial_sig@) matches Some(parts)
    &&& secp_public_key_parse(kernel_nonce_sum_bytes(excess_sig)) matches Some(nonce_sum)
    &&& secp_commit_public_key(p.witness_data->0.kernel_commitment@) matches Some(blind_sum)
    &&& {
        ||| receiver_sig_valid_bytes(parts.0, p.receiver_public_nonce@, nonce_sum, p.receiver_public_excess@, blind_sum, msg@)
        ||| parts.1 matches Some(alt) && receiver_sig_valid_bytes(alt, p.receiver_public_nonce@, nonce_sum, p.receiver_public_excess@, blind_sum, msg@)
    }
}

/// The error `InvoiceProof::verify_witness` raises when the proof carries
/// witness data and a valid promise but the kernel does not bear it out.
pub open spec fn kernel_check_error(p: InvoiceProof, excess_sig: Signature) -> Error {
    let w = p.witness_data->0;
    match aggsig_subtraction(excess_sig@, w.sender_partial_sig@) {
        None => Error::Secp,
        Some(parts) => if secp_public_key_parse(kernel_nonce_sum_bytes(excess_sig)) is None
            || secp_commit_public_key(w.kernel_commitment@) is None {
            Error::Secp
        } else {
            match parts.1 {
                None => Error::ReceiverSignatureMismatch,
                Some(alt) => if alt.subrange(0, 32) == p.receiver_public_nonce@.subrange(1, 33) {
                    Error::PartialSignatureInvalid
                } else {
                    Error::ReceiverNonceMismatch
                },
            }
        },
    }
}

impl InvoiceProof {
    /// Extracts as much data as possible from the slate to create an invoice
    /// proof for the participant at `participant_index`.
    pub fn from_slate(slate: &Slate, participant_index: usize, sender_address: Option<DalekPublicKey>) -> (r: Result<Self, Error>)
        ensures
            from_slate_error(*slate, participant_index, sender_address) matches Some(e) ==> r == Err::<Self, Error>(e),
            from_slate_error(*slate, participant_index, sender_address) is None ==> (r matches Ok(p)
                && same_proof(p, spec_from_slate(*slate, participant_index, sender_address))),
    {
        // Bounds-check the participant index before indexing participant_data,
        // so a malformed slate returns an error.
        if participant_index >= slate.participant_data.len() {
            return Err(Error::ParticipantIndexOutOfRange {
                index: participant_index,
                len: slate.participant_data.len(),
            });
        }
        // Sender address is either provided or in the slate (or an error)
        let sender_address = match sender_address {
            Some(a) => a,
            None => match &slate.payment_proof {
                Some(p) => match p.sender_address {
                    Some(a) => a,
                    None => return Err(Error::NoSenderAddressProvided),
                },
                None => return Err(Error::NoSenderAddressProvided),
            },
        };
        let (proof_type, timestamp) = match &slate.payment_proof {
            Some(p) => match p.timestamp {
                Some(t) => (p.proof_type, t),
                None => return Err(Error::MissingProofTimestamp),
            },
            None => (PaymentProofType::Invoice, 0i64),
        };
        let memo = match &slate.payment_proof {
            Some(p) => duplicate_memo(&p.memo),
            None => None,
        };
        let promise_signature = match &slate.payment_proof {
            Some(p) => p.promise_signature,
            None => None,
        };
        Ok(InvoiceProof {
            proof_type,
            amount: slate.amount,
            receiver_public_nonce: slate.participant_data[participant_index].public_nonce,
            receiver_public_excess: slate.participant_data[participant_index].public_blind_excess,
            sender_address,
            timestamp,
            memo,
            promise_signature,
            witness_data: None,
        })
    }

    /// Signs the binary form of the proof with `sec_key`, giving the promise
    /// signature and the proof address of the key.
    pub fn sign(&self, sec_key: &SecretKey) -> (r: Result<(DalekSignature, DalekPublicKey), Error>)
        ensures
            r is Ok <==> amount_fits(self.amount),
            r matches Err(e) ==> amount_error(e, self.amount),
            r matches Ok((sig, addr)) ==> sig@ == ed25519_signature(sec_key@, invoice_proof_message(*self))
                && addr@ == ed25519_public_key(sec_key@)
                && ed25519_verifies(addr@, invoice_proof_message(*self), sig@),
            r matches Ok((sig, addr)) ==> (self.proof_type == PaymentProofType::Invoice
                ==> promise_signature_valid(with_promise(*self, sig), addr)),
    {
        let pub_key = ed25519_public(sec_key);
        let sig_data_bin = InvoiceProofBin(self).write()?;
        let sig = ed25519_sign(sec_key, sig_data_bin.as_slice());
        assert(invoice_proof_message(with_promise(*self, sig)) == invoice_proof_message(*self));
        Ok((sig, pub_key))
    }

    /// Checks the promise signature of the proof against the recipient address.
    pub fn verify_promise_signature(&self, recipient_address: &DalekPublicKey) -> (r: Result<(), Error>)
        ensures
            r is Ok <==> promise_signature_valid(*self, *recipient_address),
            r matches Err(e) ==> promise_error(e, *self, *recipient_address),
    {
        self.proof_type.validate(PaymentProofType::Invoice)?;
        let sig = match &self.promise_signature {
            Some(s) => s,
            None => return Err(Error::MissingPromiseSignature),
        };
        // Rebuild message
        let sig_data_bin = InvoiceProofBin(self).write()?;
        if !ed25519_verify(recipient_address, sig_data_bin.as_slice(), sig) {
            return Err(Error::InvalidRecipientSignature);
        }
        Ok(())
    }

    /// Checks the proof against a kernel: its promise, and that the receiver
    /// part of the kernel signature was made with the promised nonce and excess
    /// (kernel lookup is beyond the scope of this module).
    pub fn verify_witness(&self, recipient_address: &DalekPublicKey, excess_sig: &Signature, msg: &Message) -> (r: Result<(), Error>)
        ensures
            r is Ok <==> witness_valid(*self, *recipient_address, *excess_sig, *msg),
            self.witness_data is None ==> r == Err::<(), Error>(Error::MissingWitnessData),
            self.witness_data is Some && !promise_signature_valid(*self, *recipient_address)
                ==> (r matches Err(e) && promise_error(e, *self, *recipient_address)),
            self.witness_data is Some && promise_signature_valid(*self, *recipient_address)
                && !witness_valid(*self, *recipient_address, *excess_sig, *msg)
                ==> r == Err::<(), Error>(kernel_check_error(*self, *excess_sig)),
    {
        let wd = match &self.witness_data {
            Some(w) => w,
            None => return Err(Error::MissingWitnessData),
        };
        self.verify_promise_signature(recipient_address)?;
        let (part_sig, alt_sig) = match subtract_signature(excess_sig, &wd.sender_partial_sig) {
            Some(parts) => parts,
            None => return Err(Error::Secp),
        };
        // Retrieve the public nonce sum from the kernel excess signature
        let mut nonce_sum_bytes = [3u8; 33];
        let mut i: usize = 0;
        while i < 32
            invariant
                i <= 32,
                nonce_sum_bytes@.len() == 33,
                nonce_sum_bytes@[0] == 3u8,
                forall|j: int| 0 <= j < i ==> nonce_sum_bytes@[j + 1] == excess_sig@[j],
            decreases 32 - i,
        {
            nonce_sum_bytes[i + 1] = excess_sig[i];
            i = i + 1;
        }
        assert(nonce_sum_bytes@ =~= kernel_nonce_sum_bytes(*excess_sig));
        let pub_nonce_sum = match public_key_parse(&nonce_sum_bytes) {
            Some(k) => k,
            None => return Err(Error::Secp),
        };
        // Retrieve the public key sum from the kernel excess
        let pub_blind_sum = match commit_to_public_key(&wd.kernel_commitment) {
            Some(k) => k,
            None => return Err(Error::Secp),
        };
        assert(self.receiver_public_nonce@.subrange(1, 33) == self.receiver_public_nonce@.subrange(1, 33));
        match verify_receiver_sig(
            &part_sig,
            &self.receiver_public_nonce,
            &pub_nonce_sum,
            &self.receiver_public_excess,
            &pub_blind_sum,
            msg,
        ) {
            Ok(()) => Ok(()),
            Err(e) => {
                // Try the other possibility
                match alt_sig {
                    Some(s) => verify_receiver_sig(
                        &s,
                        &self.receiver_public_nonce,
                        &pub_nonce_sum,
                        &self.receiver_public_excess,
                        &pub_blind_sum,
                        msg,
                    ),
                    None => Err(Error::ReceiverSignatureMismatch),
                }
            },
        }
    }
}

/// The error of `generate_invoice_signature` that comes before the proof is
/// signed, if any.
pub open spec fn invoice_signature_error(slate: Slate, context: Context, proof_args: ProofArgs) -> Option<Error> {
    if secp_public_key(context.sec_key@) is None {
        Some(Error::Secp)
    } else {
        match context_index(slate, context.sec_key) {
            None => Some(Error::ContextNotInSlate),
            Some(i) => from_slate_error(slate, i as usize, proof_args.sender_address),
        }
    }
}

/// The derivation path of the payment proof key of a contract: under the
/// contract's own account, at the stored derivation index, or 0 when none is
/// stored.
pub fn proof_key_path(context: &Context) -> (r: (Identifier, u32))
    ensures
        r.0 == context.parent_key_id,
        r.1 == match context.payment_proof_derivation_index {
            Some(i) => i,
            None => 0u32,
        },
{
    let index = match context.payment_proof_derivation_index {
        Some(i) => i,
        None => 0,
    };
    (context.parent_key_id, index)
}

/// The promise the receiver makes on `slate`: the proof extracted for its
/// participant entry, stamped `now`.
pub open spec fn promised_proof(slate: Slate, context: Context, proof_args: ProofArgs, now: i64) -> InvoiceProof {
    InvoiceProof {
        timestamp: now,
        ..spec_from_slate(slate, context_index(slate, context.sec_key)->0 as usize, proof_args.sender_address)
    }
}

/// Generates the invoice proof of our participant entry, stamped `now`, and
/// signs it with the proof key `recp_key`. Gives the proof, the promise
/// signature and the proof address.
pub fn generate_invoice_signature(
    slate: &Slate,
    context: &Context,
    proof_args: &ProofArgs,
    recp_key: &SecretKey,
    now: i64,
) -> (r: Result<(InvoiceProof, DalekSignature, DalekPublicKey), Error>)
    ensures
        invoice_signature_error(*slate, *context, *proof_args) matches Some(e) ==> r == Err::<
            (InvoiceProof, DalekSignature, DalekPublicKey),
            Error,
        >(e),
        invoice_signature_error(*slate, *context, *proof_args) is None && !amount_fits(slate.amount)
            ==> (r matches Err(e) && amount_error(e, slate.amount)),
        invoice_signature_error(*slate, *context, *proof_args) is None && amount_fits(slate.amount)
            ==> r is Ok,
        r matches Ok((p, sig, addr)) ==> {
            &&& same_proof(p, promised_proof(*slate, *context, *proof_args, now))
            &&& sig@ == ed25519_signature(recp_key@, invoice_proof_message(p))
            &&& addr@ == ed25519_public_key(recp_key@)
            &&& ed25519_verifies(addr@, invoice_proof_message(p), sig@)
        },
{
    let index = slate.find_index_matching_context(context)?;
    let mut invoice_proof = InvoiceProof::from_slate(slate, index, proof_args.sender_address)?;
    invoice_proof.timestamp = now;
    let (sig, addr) = invoice_proof.sign(recp_key)?;
    Ok((invoice_proof, sig, addr))
}

/// `new` is `old` with the receiver's payment proof added: the promise of
/// `promised_proof`, signed by `recp_key` at time `now`.
pub open spec fn payment_proof_added(
    old: Slate,
    new: Slate,
    context: Context,
    proof_args: ProofArgs,
    recp_key: SecretKey,
    now: i64,
) -> bool {
    let promise = promised_proof(old, context, proof_args, now);
    &&& invoice_signature_error(old, context, proof_args) is None
    &&& amount_fits(old.amount)
    &&& new == Slate { payment_proof: new.payment_proof, ..old }
    &&& new.payment_proof matches Some(info)
    &&& info.proof_type == promise.proof_type
    &&& info.sender_address == proof_args.sender_address
    &&& info.receiver_address@ == ed25519_public_key(recp_key@)
    &&& info.timestamp == Some(now)
    &&& same_memo(info.memo, promise.memo)
    &&& info.promise_signature matches Some(sig)
    &&& sig@ == ed25519_signature(recp_key@, invoice_proof_message(promise))
    &&& ed25519_verifies(info.receiver_address@, invoice_proof_message(promise), sig@)
}

/// Adds the receiver's payment proof to the slate: the invoice proof of our
/// participant entry, stamped `now` and signed with the proof key `recp_key`.
/// The slate is unchanged when this fails.
pub fn add_payment_proof(
    slate: &mut Slate,
    context: &Context,
    proof_args: &ProofArgs,
    recp_key: &SecretKey,
    now: i64,
) -> (r: Result<(), Error>)
    ensures
        r is Err ==> *final(slate) == *old(slate),
        invoice_signature_error(*old(slate), *context, *proof_args) matches Some(e) ==> r == Err::<(), Error>(e),
        invoice_signature_error(*old(slate), *context, *proof_args) is None && !amount_fits(old(slate).amount)
            ==> (r matches Err(e) && amount_error(e, old(slate).amount)),
        invoice_signature_error(*old(slate), *context, *proof_args) is None && amount_fits(old(slate).amount)
            ==> (r is Ok <==> chrono_timestamp_in_range(now)),
        !chrono_timestamp_in_range(now) && r is Err && invoice_signature_error(*old(slate), *context, *proof_args) is None
            && amount_fits(old(slate).amount) ==> r == Err::<(), Error>(Error::InvalidProofTimestamp(now)),
        r is Ok ==> payment_proof_added(*old(slate), *final(slate), *context, *proof_args, *recp_key, now),
{
    let (invoice_proof, promise_signature, receiver_address) = generate_invoice_signature(
        slate,
        context,
        proof_args,
        recp_key,
        now,
    )?;
    // Carry over the timestamp the promise signature was made over rather than
    // reading the clock a second time.
    let timestamp = match datetime_from_timestamp(invoice_proof.timestamp) {
        Some(t) => t,
        None => return Err(Error::InvalidProofTimestamp(invoice_proof.timestamp)),
    };
    proof {
        lemma_same_proof(invoice_proof, promised_proof(*slate, *context, *proof_args, now));
    }
    let info = PaymentInfo {
        proof_type: invoice_proof.proof_type,
        sender_address: proof_args.sender_address,
        receiver_address,
        timestamp: Some(timestamp),
        promise_signature: Some(promise_signature),
        memo: invoice_proof.memo,
    };
    slate.payment_proof = Some(info);
    Ok(())
}

} // verus!
