//! Contract steps on the slate: joining with our keys, signing, payment
//! proofs, contributing inputs and outputs, advancing the state, finalizing.

use vstd::prelude::*;

use crate::contract::proofs::{
    self, amount_error, amount_fits, from_slate_error, invoice_proof_message, invoice_signature_error,
    lemma_message_depends_on_memo_text, payment_proof_added, promise_error,
    promise_signature_valid, promised_proof, spec_from_slate, InvoiceProof,
};
use crate::contract::types::{Context, OutputData, ProofArgs, ProofType};
use crate::crypto::{
    blinding_sum, chrono_timestamp_in_range, keychain_commit, keychain_commitment, keychain_range_proof,
    keychain_range_proof_bytes, public_key_from_secret, secp_public_key, KeychainSeed, aggsig_completed_verifies,
    ed25519_verifies,
    secp_commit_public_key,
};
use crate::error::Error;
use crate::slate::{
    context_index, is_entry, keys_equal, lemma_without_absent_entry, lemma_without_entry_has_none,
    lemma_without_entry_keeps_nonce, participant_added, round_2_outcome, without_entry,
    finalize_error, finalized, first_unsigned, lemma_first_unsigned_exists, spec_msg_to_sign, DalekPublicKey, Identifier, OutputFeatures, ParticipantData, SecretKey, Slate,
    SlateState, Transaction, TxInput, TxOutput, add_input, add_output, input_keys, inputs_with, output_keys,
    outputs_with, strictly_sorted,
};

verus! {

// ----------------------------------------------------------------------------
// Payment proofs
// ----------------------------------------------------------------------------

/// Whether this step must add a payment proof: we receive (`net_change` is
/// positive), proofs are not suppressed and the slate carries none yet. Fails
/// when a proof of an unsupported kind is asked for.
pub fn payment_proof_required(slate: &Slate, net_change: &Option<i64>, proof_args: &ProofArgs) -> (r: Result<bool, Error>)
    ensures
        r is Err <==> !proof_args.suppress_proof && proof_args.proof_type != ProofType::Invoice,
        r is Err ==> r == Err::<bool, Error>(Error::UnsupportedProofType),
        r matches Ok(b) ==> b == (net_change matches Some(c) && c > 0 && !proof_args.suppress_proof
            && slate.payment_proof is None),
{
    if !proof_args.suppress_proof {
        proofs::check_proof_type(&proof_args.proof_type)?;
    }
    // If we're a recipient, generate a proof unless explicitly told not to
    match net_change {
        Some(c) => Ok(*c > 0 && !proof_args.suppress_proof && slate.payment_proof.is_none()),
        None => Ok(false),
    }
}

/// Adds payment proof data to the slate when we receive: the invoice proof of
/// our participant entry, stamped `now` and signed with the proof key
/// `recp_key`. Nothing changes for a sender, when proofs are suppressed, or
/// when the slate already carries a proof, nor when this fails.
pub fn add_payment_proof(
    slate: &mut Slate,
    context: &Context,
    net_change: &Option<i64>,
    proof_args: &ProofArgs,
    recp_key: &SecretKey,
    now: i64,
) -> (r: Result<(), Error>)
    ensures
        !proof_args.suppress_proof && proof_args.proof_type != ProofType::Invoice
            ==> r == Err::<(), Error>(Error::UnsupportedProofType),
        r is Err ==> *final(slate) == *old(slate),
        ({
            let required = net_change matches Some(c) && c > 0 && !proof_args.suppress_proof
                && old(slate).payment_proof is None;
            let unsupported = !proof_args.suppress_proof && proof_args.proof_type != ProofType::Invoice;
            let err = invoice_signature_error(*old(slate), *context, *proof_args);
            &&& !unsupported && !required ==> r is Ok && *final(slate) == *old(slate)
            &&& !unsupported && required ==> {
                &&& err matches Some(e) ==> r == Err::<(), Error>(e)
                &&& err is None && !amount_fits(old(slate).amount) ==> (r matches Err(e)
                    && amount_error(e, old(slate).amount))
                &&& err is None && amount_fits(old(slate).amount) ==> (r is Ok <==> chrono_timestamp_in_range(now))
                &&& err is None && amount_fits(old(slate).amount) && !chrono_timestamp_in_range(now)
                    ==> r == Err::<(), Error>(Error::InvalidProofTimestamp(now))
                &&& r is Ok ==> payment_proof_added(*old(slate), *final(slate), *context, *proof_args, *recp_key, now)
            }
        }),
{
    if payment_proof_required(slate, net_change, proof_args)? {
        proofs::add_payment_proof(slate, context, proof_args, recp_key, now)?;
    }
    Ok(())
}

/// The sender's check of the payment proof of a slate it receives:
/// succeeds when we do not receive or the slate carries no proof, and
/// otherwise exactly when the promise of the receiver (participant 1) verifies
/// under `recipient_address`.
pub open spec fn payment_proof_checks(slate: Slate, net_change: i64, recipient_address: DalekPublicKey) -> bool {
    net_change > 0 && slate.payment_proof is Some ==> {
        &&& from_slate_error(slate, 1, None) is None
        &&& promise_signature_valid(spec_from_slate(slate, 1, None), recipient_address)
    }
}

/// Verifies the payment proof signature of a slate.
pub fn verify_payment_proof(slate: &Slate, net_change: i64, recipient_address: &DalekPublicKey) -> (r: Result<(), Error>)
    ensures
        r is Ok <==> payment_proof_checks(*slate, net_change, *recipient_address),
        r matches Err(e) ==> (from_slate_error(*slate, 1, None) matches Some(f) ==> e == f),
        r matches Err(e) ==> (from_slate_error(*slate, 1, None) is None
            ==> promise_error(e, spec_from_slate(*slate, 1, None), *recipient_address)),
        r is Ok && net_change > 0 && slate.payment_proof is Some ==> (slate.payment_proof->0.promise_signature matches Some(sig)
            && ed25519_verifies(recipient_address@, invoice_proof_message(spec_from_slate(*slate, 1, None)), sig@)),
        net_change > 0 && slate.payment_proof is Some && slate.payment_proof->0.promise_signature is None
            ==> r is Err,
{
    if net_change > 0 && slate.payment_proof.is_some() {
        let invoice_proof = InvoiceProof::from_slate(slate, 1, None)?;
        proof {
            proofs::lemma_same_proof(invoice_proof, spec_from_slate(*slate, 1, None));
        }
        invoice_proof.verify_promise_signature(recipient_address)?;
    }
    Ok(())
}

/// The sender's check of a payment proof accepts only a promise: when we
/// receive and the slate carries a proof, the check succeeds only if the
/// proof holds the receiver's promise signature and that signature verifies
/// under the recipient address for the binary form of the proof read from
/// the slate; a proof without a promise fails the check.
pub proof fn lemma_payment_proof_check_needs_the_promise(slate: Slate, net_change: i64, recipient_address: DalekPublicKey)
    requires
        net_change > 0,
        slate.payment_proof is Some,
    ensures
        payment_proof_checks(slate, net_change, recipient_address) ==> (slate.payment_proof->0.promise_signature matches Some(sig)
            && ed25519_verifies(recipient_address@, invoice_proof_message(spec_from_slate(slate, 1, None)), sig@)),
        slate.payment_proof->0.promise_signature is None ==> !payment_proof_checks(slate, net_change, recipient_address),
{
}

/// A payment proof that the receiver adds to a slate verifies, whatever the
/// receiver's entry: the proof read back from the new slate at that entry
/// carries a promise that verifies under the receiver address the slate
/// records.
pub proof fn lemma_added_payment_proof_promise_verifies(
    old: Slate,
    new: Slate,
    context: Context,
    proof_args: ProofArgs,
    recp_key: SecretKey,
    now: i64,
)
    requires
        payment_proof_added(old, new, context, proof_args, recp_key, now),
        old.payment_proof is None,
    ensures
        context_index(old, context.sec_key) is Some,
        ({
            let i = context_index(old, context.sec_key)->0 as usize;
            &&& from_slate_error(new, i, None) is None
            &&& promise_signature_valid(spec_from_slate(new, i, None), new.payment_proof->0.receiver_address)
        }),
{
    let i = context_index(old, context.sec_key)->0 as usize;
    let promise = promised_proof(old, context, proof_args, now);
    let checked = spec_from_slate(new, i, None);
    assert(proof_args.sender_address is Some);
    lemma_message_depends_on_memo_text(checked, promise);
}

/// A payment proof that the receiver adds to a slate verifies for the sender:
/// when the receiver is participant 1 and the slate carried no proof before,
/// the sender's check of the new slate succeeds under the receiver address
/// the proof records.
pub proof fn lemma_added_payment_proof_verifies(
    old: Slate,
    new: Slate,
    context: Context,
    proof_args: ProofArgs,
    recp_key: SecretKey,
    now: i64,
    net_change: i64,
)
    requires
        payment_proof_added(old, new, context, proof_args, recp_key, now),
        old.payment_proof is None,
        context_index(old, context.sec_key) == Some(1int),
        net_change > 0,
    ensures
        payment_proof_checks(new, net_change, new.payment_proof->0.receiver_address),
{
    lemma_added_payment_proof_promise_verifies(old, new, context, proof_args, recp_key, now);
}

// ----------------------------------------------------------------------------
// State
// ----------------------------------------------------------------------------

/// The state a slate advances to: Standard1 to Standard2 to Standard3, and
/// Invoice1 to Invoice2 to Invoice3; Unknown and final states do not advance.
pub open spec fn next_state(state: SlateState) -> Option<SlateState> {
    match state {
        SlateState::Invoice1 => Some(SlateState::Invoice2),
        SlateState::Invoice2 => Some(SlateState::Invoice3),
        SlateState::Standard1 => Some(SlateState::Standard2),
        SlateState::Standard2 => Some(SlateState::Standard3),
        _ => None,
    }
}

/// Transitions the slate state to the next one; fails, leaving the slate
/// unchanged, on a state that cannot advance.
pub fn transition_state(slate: &mut Slate) -> (r: Result<(), Error>)
    ensures
        r is Ok <==> next_state(old(slate).state) is Some,
        r is Ok ==> *final(slate) == (Slate { state: next_state(old(slate).state)->0, ..*old(slate) }),
        r is Err ==> *final(slate) == *old(slate) && r == Err::<(), Error>(
            Error::CannotAdvanceState(old(slate).state),
        ),
{
    let new_state = match slate.state {
        SlateState::Invoice1 => SlateState::Invoice2,
        SlateState::Invoice2 => SlateState::Invoice3,
        SlateState::Standard1 => SlateState::Standard2,
        SlateState::Standard2 => SlateState::Standard3,
        // Unknown, or a slate that has already reached its final state, is not
        // something we can advance.
        s => return Err(Error::CannotAdvanceState(s)),
    };
    slate.state = new_state;
    Ok(())
}

/// Whether a state belongs to the invoice flow.
pub open spec fn is_invoice_state(state: SlateState) -> bool {
    state == SlateState::Invoice1 || state == SlateState::Invoice2 || state == SlateState::Invoice3
}

/// A contract advances at most twice: no state can be advanced three times.
pub proof fn lemma_transitions_end(state: SlateState)
    ensures
        next_state(state) matches Some(s1) ==> (next_state(s1) matches Some(s2) ==> next_state(s2) is None),
{
}

/// Advancing keeps a slate in its flow and never reaches `Unknown`.
pub proof fn lemma_transition_keeps_flow(state: SlateState)
    ensures
        next_state(state) matches Some(s) ==> is_invoice_state(s) == is_invoice_state(state)
            && s != SlateState::Unknown && s != state,
{
}

// ----------------------------------------------------------------------------
// Keys and signatures
// ----------------------------------------------------------------------------

/// The slate carries our public excess with a nonce that is not ours.
pub open spec fn foreign_nonce(pd: Seq<ParticipantData>, key: Seq<u8>, nonce: Seq<u8>) -> bool {
    exists|i: int| 0 <= i < pd.len() && pd[i].public_blind_excess@ == key && pd[i].public_nonce@ != nonce
}

/// The slate carries our entry.
pub open spec fn has_entry(pd: Seq<ParticipantData>, key: Seq<u8>, nonce: Seq<u8>) -> bool {
    exists|i: int| 0 <= i < pd.len() && is_entry(pd[i], key, nonce)
}

/// The error `add_keys` raises, if any.
pub open spec fn add_keys_error(slate: Slate, context: Context) -> Option<Error> {
    match (secp_public_key(context.sec_key@), secp_public_key(context.sec_nonce@)) {
        (Some(key), Some(nonce)) => if foreign_nonce(slate.participant_data@, key, nonce) {
            Some(Error::ForeignNonceForOurExcess)
        } else if !has_entry(slate.participant_data@, key, nonce)
            && slate.participant_data@.len() >= slate.num_participants {
            Some(Error::ParticipantsComplete(slate.num_participants))
        } else {
            None
        },
        _ => Some(Error::Secp),
    }
}

/// `new` is `old` with our public excess and nonce added by `add_keys`.
pub open spec fn keys_added(old: Slate, new: Slate, context: Context) -> bool {
    &&& new == Slate { participant_data: new.participant_data, ..old }
    &&& participant_added(
        old.participant_data@,
        new.participant_data@,
        secp_public_key(context.sec_key@)->0,
        secp_public_key(context.sec_nonce@)->0,
        None,
    )
}

/// Performs the setup step of a contract: adds our public excess and nonce
/// to the slate. Rejects a slate that carries our excess with a foreign nonce,
/// or that already holds all its participants without us; the slate is then
/// unchanged.
pub fn add_keys(slate: &mut Slate, context: &Context) -> (r: Result<(), Error>)
    ensures
        add_keys_error(*old(slate), *context) matches Some(e) ==> r == Err::<(), Error>(e)
            && *final(slate) == *old(slate),
        add_keys_error(*old(slate), *context) is None ==> r is Ok && keys_added(*old(slate), *final(slate), *context),
{
    let our_pub_key = match public_key_from_secret(&context.sec_key) {
        Some(k) => k,
        None => return Err(Error::Secp),
    };
    let our_pub_nonce = match public_key_from_secret(&context.sec_nonce) {
        Some(n) => n,
        None => return Err(Error::Secp),
    };
    let ghost pd = slate.participant_data@;
    let mut foreign = false;
    let mut already_ours = false;
    let mut i: usize = 0;
    while i < slate.participant_data.len()
        invariant
            pd == slate.participant_data@,
            i <= pd.len(),
            foreign <==> exists|j: int| 0 <= j < i && pd[j].public_blind_excess@ == our_pub_key@
                && pd[j].public_nonce@ != our_pub_nonce@,
            already_ours <==> exists|j: int| 0 <= j < i && is_entry(pd[j], our_pub_key@, our_pub_nonce@),
        decreases pd.len() - i,
    {
        let excess_ours = keys_equal(&slate.participant_data[i].public_blind_excess, &our_pub_key);
        let nonce_ours = keys_equal(&slate.participant_data[i].public_nonce, &our_pub_nonce);
        // An entry is ours only when both keys match. Our excess paired with a
        // nonce that is not ours cannot have come from us.
        if excess_ours && !nonce_ours {
            foreign = true;
        }
        if excess_ours && nonce_ours {
            already_ours = true;
        }
        i = i + 1;
    }
    if foreign {
        return Err(Error::ForeignNonceForOurExcess);
    }
    // Guard against a tampered slate that already carries the full participant
    // set. Re-adding our own info is idempotent, so only block when we are
    // not already in it.
    if !already_ours && slate.participant_data.len() >= slate.num_participants as usize {
        return Err(Error::ParticipantsComplete(slate.num_participants));
    }
    slate.add_participant_info(context, None)
}

/// Adding our keys is idempotent: once `add_keys` has succeeded, running it
/// again succeeds and leaves the slate as it was.
pub proof fn lemma_add_keys_idempotent(s0: Slate, s1: Slate, s2: Slate, context: Context)
    requires
        add_keys_error(s0, context) is None,
        keys_added(s0, s1, context),
        keys_added(s1, s2, context),
    ensures
        add_keys_error(s1, context) is None,
        s2 == (Slate { participant_data: s2.participant_data, ..s1 }),
        s2.participant_data@ == s1.participant_data@,
{
    let key = secp_public_key(context.sec_key@)->0;
    let nonce = secp_public_key(context.sec_nonce@)->0;
    let pd0 = s0.participant_data@;
    let pd1 = s1.participant_data@;
    let pd2 = s2.participant_data@;
    let kept = without_entry(pd0, key, nonce);
    lemma_without_entry_has_none(pd0, key, nonce);
    lemma_without_entry_keeps_nonce(pd0, key, nonce);
    let e = pd1.last();
    assert(pd1.drop_last() =~= kept);
    lemma_without_absent_entry(kept, key, nonce);
    assert(without_entry(pd1, key, nonce) == kept);
    assert(has_entry(pd1, key, nonce)) by {
        assert(is_entry(pd1[pd1.len() - 1], key, nonce));
    }
    assert(!foreign_nonce(pd1, key, nonce)) by {
        assert forall|j: int| 0 <= j < pd1.len() && pd1[j].public_blind_excess@ == key
            implies pd1[j].public_nonce@ == nonce by {
            if j < pd1.len() - 1 {
                assert(pd1[j] == kept[j]);
            }
        }
    }
    let f = pd2.last();
    assert(f.public_blind_excess =~= e.public_blind_excess);
    assert(f.public_nonce =~= e.public_nonce);
    assert(f == e);
    assert forall|j: int| 0 <= j < pd2.len() implies pd2[j] == pd1[j] by {
        if j < kept.len() {
            assert(pd2[j] == pd2.subrange(0, kept.len() as int)[j]);
            assert(pd1[j] == pd1.subrange(0, kept.len() as int)[j]);
        }
    }
    assert(pd2 =~= pd1);
}

/// Adds our partial signature to our entry of the slate, the one whose public
/// excess and nonce are both ours. The counterparty controls the
/// participant list, so the slate must hold exactly the participants it
/// declares before we sign over it; otherwise the slate is unchanged.
pub fn sign(slate: &mut Slate, context: &Context) -> (r: Result<(), Error>)
    ensures
        old(slate).participant_data@.len() != old(slate).num_participants ==> r == Err::<(), Error>(
            Error::ParticipantCountMismatch {
                declared: old(slate).num_participants,
                present: old(slate).participant_data@.len() as usize,
            },
        ) && *final(slate) == *old(slate),
        old(slate).participant_data@.len() == old(slate).num_participants ==> round_2_outcome(
            *old(slate),
            *final(slate),
            context.sec_key,
            context.sec_nonce,
            r,
        ),
{
    if slate.participant_data.len() != slate.num_participants as usize {
        return Err(Error::ParticipantCountMismatch {
            declared: slate.num_participants,
            present: slate.participant_data.len(),
        });
    }
    slate.fill_round_2(&context.sec_key, &context.sec_nonce)
}

/// Whether every participant has signed and the slate holds the participants it declares.
pub open spec fn spec_can_finalize(slate: Slate) -> bool {
    &&& forall|i: int| 0 <= i < slate.participant_data@.len() ==> (#[trigger] slate.participant_data@[i]).part_sig is Some
    &&& slate.participant_data@.len() == slate.num_participants
}

/// We can finalize when all partial signatures are present: every
/// participant has signed and there are as many as the slate declares.
pub fn can_finalize(slate: &Slate) -> (r: bool)
    ensures
        r == spec_can_finalize(*slate),
        r ==> forall|i: int| 0 <= i < slate.participant_data@.len() ==> (#[trigger] slate.participant_data@[i]).part_sig is Some,
        r ==> slate.participant_data@.len() == slate.num_participants,
        !r ==> (exists|i: int| 0 <= i < slate.participant_data@.len() && (#[trigger] slate.participant_data@[i]).part_sig is None)
            || slate.participant_data@.len() != slate.num_participants,
{
    let mut unsigned: usize = 0;
    let mut i: usize = 0;
    while i < slate.participant_data.len()
        invariant
            i <= slate.participant_data@.len(),
            unsigned <= i,
            unsigned == 0 <==> forall|j: int| 0 <= j < i ==> (#[trigger] slate.participant_data@[j]).part_sig is Some,
        decreases slate.participant_data@.len() - i,
    {
        if !slate.participant_data[i].is_complete() {
            unsigned = unsigned + 1;
        }
        i = i + 1;
    }
    // We can finalize if the number of partial sigs is the same as the number of participants
    unsigned == 0 && slate.participant_data.len() == slate.num_participants as usize
}

/// A slate can be finalized exactly when it holds the participants it
/// declares and finalizing it does not fail for a missing partial signature:
/// every participant has signed. When one has not, finalizing fails naming
/// the first who has not.
pub proof fn lemma_can_finalize_iff_all_signed(slate: Slate)
    ensures
        spec_can_finalize(slate) <==> slate.participant_data@.len() == slate.num_participants
            && !(finalize_error(slate) matches Some(Error::MissingPartialSignature(_))),
        (exists|i: int| 0 <= i < slate.participant_data@.len() && (#[trigger] slate.participant_data@[i]).part_sig is None)
            ==> !spec_can_finalize(slate) && exists|i: int| 0 <= i < slate.participant_data@.len()
            && slate.participant_data@[i].part_sig is None
            && (forall|j: int| 0 <= j < i ==> (#[trigger] slate.participant_data@[j]).part_sig is Some)
            && finalize_error(slate) == Some(Error::MissingPartialSignature(i as usize)),
{
    let pd = slate.participant_data@;
    if exists|i: int| 0 <= i < pd.len() && (#[trigger] pd[i]).part_sig is None {
        lemma_first_unsigned_exists(pd);
        let c = choose|i: int| first_unsigned(pd, i);
        assert(first_unsigned(pd, c));
    }
}

/// Finalizes the slate: the transaction takes the slate offset, then the
/// partial signatures are aggregated into its kernel. The transaction keeps
/// the slate offset even when aggregation fails.
pub fn finalize(slate: &mut Slate) -> (r: Result<(), Error>)
    ensures
        old(slate).tx is None ==> r == Err::<(), Error>(Error::MissingTransaction) && *final(slate) == *old(slate),
        old(slate).tx matches Some(tx) ==> {
            let with_offset = Slate { tx: Some(Transaction { offset: old(slate).offset, ..tx }), ..*old(slate) };
            &&& r is Ok <==> finalize_error(with_offset) is None
            &&& r matches Err(e) ==> finalize_error(with_offset) == Some(e) && *final(slate) == with_offset
            &&& r is Ok ==> finalized(with_offset, *final(slate))
        },
        r is Ok ==> (final(slate).tx matches Some(tx) && tx.offset == old(slate).offset),
        r is Ok ==> (final(slate).tx matches Some(tx) && tx.kernel matches Some(k)
            && (secp_commit_public_key(k.excess@) matches Some(excess_key)
            && aggsig_completed_verifies(k.excess_sig@, excess_key, excess_key, spec_msg_to_sign(*old(slate))->0))),
{
    // At this point, everyone adjusted their offset, so we update the offset on the tx
    match slate.tx.take() {
        Some(mut tx) => {
            tx.offset = slate.offset;
            slate.tx = Some(tx);
        },
        None => return Err(Error::MissingTransaction),
    }
    slate.finalize()
}

/// The features of the input that spends a stored output.
pub open spec fn input_features(coin: OutputData) -> OutputFeatures {
    if coin.is_coinbase {
        OutputFeatures::Coinbase
    } else {
        OutputFeatures::Plain
    }
}

/// The stored output `coin` is the one the context input `i` spends.
pub open spec fn coin_for_input(context: Context, coins: Seq<OutputData>, i: int) -> bool {
    &&& i < coins.len()
    &&& coins[i].key_id == context.inputs@[i].key_id
    &&& coins[i].mmr_index == context.inputs@[i].mmr_index
}

/// The commitment the keychain makes to `value` under the key `key_id`.
pub open spec fn commitment_of(keychain: KeychainSeed, value: u64, key_id: Identifier) -> Option<Seq<u8>> {
    keychain_commitment(keychain.seed@, keychain.is_test, value, key_id@)
}

/// The range proof the keychain builds for `value` under the key `key_id`.
pub open spec fn range_proof_of(keychain: KeychainSeed, value: u64, key_id: Identifier) -> Option<Seq<u8>> {
    keychain_range_proof_bytes(keychain.seed@, keychain.is_test, value, key_id@)
}

/// Why the context input `i` cannot be added, if it cannot: its stored
/// output is missing or is another one, its key is deeper than a key path
/// holds, or the keychain cannot commit to it.
pub open spec fn input_error(keychain: KeychainSeed, context: Context, coins: Seq<OutputData>, i: int) -> Option<Error> {
    if !coin_for_input(context, coins, i) {
        Some(Error::CoinMismatch(i as usize))
    } else if coins[i].key_id@[0] > 4 {
        Some(Error::KeyIdTooDeep(coins[i].key_id@[0]))
    } else if commitment_of(keychain, coins[i].value, coins[i].key_id) is None {
        Some(Error::Keychain)
    } else {
        None
    }
}

/// `i` is the first context input that cannot be added.
pub open spec fn first_input_error(keychain: KeychainSeed, context: Context, coins: Seq<OutputData>, i: int) -> bool {
    &&& 0 <= i < context.inputs@.len()
    &&& input_error(keychain, context, coins, i) is Some
    &&& forall|j: int| 0 <= j < i ==> input_error(keychain, context, coins, j) is None
}

/// Whether two key identifiers are the same.
fn identifiers_equal(a: &Identifier, b: &Identifier) -> (r: bool)
    ensures
        r == (a == b),
{
    let mut i: usize = 0;
    while i < 17
        invariant
            i <= 17,
            forall|j: int| 0 <= j < i ==> a@[j] == b@[j],
        decreases 17 - i,
    {
        if a[i] != b[i] {
            return false;
        }
        i = i + 1;
    }
    assert(a =~= b);
    true
}

/// The inputs `added` are the ones we add for the context inputs, in order:
/// each spends the stored output read for it, with its features, committing
/// to its value under its key.
pub open spec fn inputs_for(keychain: KeychainSeed, context: Context, coins: Seq<OutputData>, added: Seq<TxInput>) -> bool {
    &&& added.len() == context.inputs@.len()
    &&& forall|j: int| 0 <= j < added.len() ==> coin_for_input(context, coins, j) && {
        let input = #[trigger] added[j];
        &&& input.features == input_features(coins[j])
        &&& commitment_of(keychain, coins[j].value, coins[j].key_id) == Some(input.commit@)
    }
}

/// `new` is `old` with our inputs for the context inputs added to its
/// transaction, one after the other, as grin adds inputs (`inputs_with`);
/// nothing else changes.
pub open spec fn inputs_added(
    old: Slate,
    new: Slate,
    keychain: KeychainSeed,
    context: Context,
    coins: Seq<OutputData>,
) -> bool {
    &&& old.tx is Some && new.tx is Some
    &&& new == (Slate { tx: new.tx, ..old })
    &&& new.tx->0 == (Transaction { inputs: new.tx->0.inputs, ..old.tx->0 })
    &&& exists|added: Seq<TxInput>| inputs_for(keychain, context, coins, added)
        && new.tx->0.inputs@ == inputs_with(old.tx->0.inputs@, added)
}

/// Contributes our inputs to the slate: for each context input, an input
/// spending the stored output `coins[i]` read for it, coinbase or regular as
/// that output is, committing to its value under its key, added as grin adds
/// an input (in key order, and not again when one with its key is there).
/// Fails when the
/// slate has no transaction, and otherwise exactly when a context input
/// cannot be added (`input_error`), with the error of the first such input.
pub fn add_inputs_to_slate(
    keychain: &KeychainSeed,
    slate: &mut Slate,
    context: &Context,
    coins: &Vec<OutputData>,
) -> (r: Result<(), Error>)
    ensures
        old(slate).tx is None ==> r == Err::<(), Error>(Error::MissingTransaction) && *final(slate) == *old(slate),
        old(slate).tx is Some ==> (r is Ok <==> forall|i: int| 0 <= i < context.inputs@.len()
            ==> #[trigger] input_error(*keychain, *context, coins@, i) is None),
        old(slate).tx is Some ==> (r matches Err(e) ==> exists|i: int| first_input_error(*keychain, *context, coins@, i)
            && input_error(*keychain, *context, coins@, i) == Some(e)),
        r is Ok ==> inputs_added(*old(slate), *final(slate), *keychain, *context, coins@),
        r is Ok && strictly_sorted(input_keys(old(slate).tx->0.inputs@))
            ==> strictly_sorted(input_keys(final(slate).tx->0.inputs@)),
{
    let mut tx = match slate.tx.take() {
        Some(t) => t,
        None => return Err(Error::MissingTransaction),
    };
    let ghost old_tx = tx;
    let ghost before = tx.inputs@;
    let ghost mut added: Seq<TxInput> = Seq::empty();
    let mut i: usize = 0;
    while i < context.inputs.len()
        invariant
            i <= context.inputs@.len(),
            old(slate).tx == Some(old_tx),
            *slate == (Slate { tx: None, ..*old(slate) }),
            tx == (Transaction { inputs: tx.inputs, ..old_tx }),
            added.len() == i,
            tx.inputs@ == inputs_with(before, added),
            forall|j: int| 0 <= j < i ==> input_error(*keychain, *context, coins@, j) is None,
            forall|j: int| 0 <= j < i ==> coin_for_input(*context, coins@, j) && {
                let input = #[trigger] added[j];
                &&& input.features == input_features(coins@[j])
                &&& commitment_of(*keychain, coins@[j].value, coins@[j].key_id) == Some(input.commit@)
            },
            strictly_sorted(input_keys(before)) ==> strictly_sorted(input_keys(tx.inputs@)),
        decreases context.inputs@.len() - i,
    {
        // The stored output read for this input
        if i >= coins.len() || !identifiers_equal(&coins[i].key_id, &context.inputs[i].key_id)
            || coins[i].mmr_index != context.inputs[i].mmr_index {
            slate.tx = Some(tx);
            proof {
                assert(first_input_error(*keychain, *context, coins@, i as int));
            }
            return Err(Error::CoinMismatch(i));
        }
        let coin = &coins[i];
        if coin.key_id[0] > 4 {
            slate.tx = Some(tx);
            proof {
                assert(first_input_error(*keychain, *context, coins@, i as int));
            }
            return Err(Error::KeyIdTooDeep(coin.key_id[0]));
        }
        let commit = match keychain_commit(keychain, coin.value, &coin.key_id) {
            Some(c) => c,
            None => {
                slate.tx = Some(tx);
                proof {
                    assert(first_input_error(*keychain, *context, coins@, i as int));
                }
                return Err(Error::Keychain);
            },
        };
        let features = if coin.is_coinbase { OutputFeatures::Coinbase } else { OutputFeatures::Plain };
        let input = TxInput { features, commit };
        let ghost pushed = input;
        add_input(&mut tx.inputs, input);
        proof {
            assert(added.push(pushed).drop_last() =~= added);
            added = added.push(pushed);
            assert(input_error(*keychain, *context, coins@, i as int) is None);
        }
        i = i + 1;
    }
    slate.tx = Some(tx);
    proof {
        assert(inputs_for(*keychain, *context, coins@, added));
    }
    Ok(())
}

/// Why the context output `i` cannot be added, if it cannot: its key is
/// deeper than a key path holds, or the keychain cannot commit to it or
/// build its range proof.
pub open spec fn output_error(keychain: KeychainSeed, context: Context, i: int) -> Option<Error> {
    let output = context.outputs@[i];
    if output.key_id@[0] > 4 {
        Some(Error::KeyIdTooDeep(output.key_id@[0]))
    } else if commitment_of(keychain, output.amount, output.key_id) is None
        || range_proof_of(keychain, output.amount, output.key_id) is None {
        Some(Error::Keychain)
    } else {
        None
    }
}

/// `i` is the first context output that cannot be added.
pub open spec fn first_output_error(keychain: KeychainSeed, context: Context, i: int) -> bool {
    &&& 0 <= i < context.outputs@.len()
    &&& output_error(keychain, context, i) is Some
    &&& forall|j: int| 0 <= j < i ==> output_error(keychain, context, j) is None
}

/// The outputs `added` are the ones we add for the context outputs, in
/// order: each plain, committing to its amount under its key, with the range
/// proof the keychain builds for it.
pub open spec fn outputs_for(keychain: KeychainSeed, context: Context, added: Seq<TxOutput>) -> bool {
    &&& added.len() == context.outputs@.len()
    &&& forall|j: int| 0 <= j < added.len() ==> {
        let output = #[trigger] added[j];
        let wanted = context.outputs@[j];
        &&& output.features == OutputFeatures::Plain
        &&& commitment_of(keychain, wanted.amount, wanted.key_id) == Some(output.commit@)
        &&& range_proof_of(keychain, wanted.amount, wanted.key_id) == Some(output.proof@)
    }
}

/// `new` is `old` with our outputs for the context outputs added to its
/// transaction, one after the other, as grin adds outputs (`outputs_with`);
/// nothing else changes.
pub open spec fn outputs_added(old: Slate, new: Slate, keychain: KeychainSeed, context: Context) -> bool {
    &&& old.tx is Some && new.tx is Some
    &&& new == (Slate { tx: new.tx, ..old })
    &&& new.tx->0 == (Transaction { outputs: new.tx->0.outputs, ..old.tx->0 })
    &&& exists|added: Seq<TxOutput>| outputs_for(keychain, context, added)
        && new.tx->0.outputs@ == outputs_with(old.tx->0.outputs@, added)
}

/// Contributes our outputs to the slate: for each context output, a plain
/// output committing to its amount under its key, with its range proof,
/// added as grin adds an output (in key order, and not again when one with
/// its key is there).
/// Fails when the slate has no transaction, and otherwise exactly when a
/// context output cannot be added (`output_error`), with the error of the
/// first such output.
pub fn add_outputs_to_slate(keychain: &KeychainSeed, slate: &mut Slate, context: &Context) -> (r: Result<(), Error>)
    ensures
        old(slate).tx is None ==> r == Err::<(), Error>(Error::MissingTransaction) && *final(slate) == *old(slate),
        old(slate).tx is Some ==> (r is Ok <==> forall|i: int| 0 <= i < context.outputs@.len()
            ==> #[trigger] output_error(*keychain, *context, i) is None),
        old(slate).tx is Some ==> (r matches Err(e) ==> exists|i: int| first_output_error(*keychain, *context, i)
            && output_error(*keychain, *context, i) == Some(e)),
        r is Ok ==> outputs_added(*old(slate), *final(slate), *keychain, *context),
        r is Ok && strictly_sorted(output_keys(old(slate).tx->0.outputs@))
            ==> strictly_sorted(output_keys(final(slate).tx->0.outputs@)),
{
    let mut tx = match slate.tx.take() {
        Some(t) => t,
        None => return Err(Error::MissingTransaction),
    };
    let ghost old_tx = tx;
    let ghost before = tx.outputs@;
    let ghost mut added: Seq<TxOutput> = Seq::empty();
    let mut i: usize = 0;
    // Iterate over outputs in the Context and add the same output to the slate
    while i < context.outputs.len()
        invariant
            i <= context.outputs@.len(),
            old(slate).tx == Some(old_tx),
            *slate == (Slate { tx: None, ..*old(slate) }),
            tx == (Transaction { outputs: tx.outputs, ..old_tx }),
            added.len() == i,
            tx.outputs@ == outputs_with(before, added),
            strictly_sorted(output_keys(before)) ==> strictly_sorted(output_keys(tx.outputs@)),
            forall|j: int| 0 <= j < i ==> output_error(*keychain, *context, j) is None,
            forall|j: int| 0 <= j < i ==> {
                let output = #[trigger] added[j];
                let wanted = context.outputs@[j];
                &&& output.features == OutputFeatures::Plain
                &&& commitment_of(*keychain, wanted.amount, wanted.key_id) == Some(output.commit@)
                &&& range_proof_of(*keychain, wanted.amount, wanted.key_id) == Some(output.proof@)
            },
        decreases context.outputs@.len() - i,
    {
        let output = &context.outputs[i];
        if output.key_id[0] > 4 {
            slate.tx = Some(tx);
            proof {
                assert(first_output_error(*keychain, *context, i as int));
            }
            return Err(Error::KeyIdTooDeep(output.key_id[0]));
        }
        let commit = match keychain_commit(keychain, output.amount, &output.key_id) {
            Some(c) => c,
            None => {
                slate.tx = Some(tx);
                proof {
                    assert(first_output_error(*keychain, *context, i as int));
                }
                return Err(Error::Keychain);
            },
        };
        let proof = match keychain_range_proof(keychain, output.amount, &output.key_id, &commit) {
            Some(p) => p,
            None => {
                slate.tx = Some(tx);
                proof {
                    assert(first_output_error(*keychain, *context, i as int));
                }
                return Err(Error::Keychain);
            },
        };
        let output = TxOutput { features: OutputFeatures::Plain, commit, proof };
        let ghost pushed = output;
        add_output(&mut tx.outputs, output);
        proof {
            assert(added.push(pushed).drop_last() =~= added);
            added = added.push(pushed);
            assert(output_error(*keychain, *context, i as int) is None);
        }
        i = i + 1;
    }
    slate.tx = Some(tx);
    proof {
        assert(outputs_for(*keychain, *context, added));
    }
    Ok(())
}

/// Every context input and output can be added, and our offset share can be
/// added to the slate offset.
pub open spec fn outputs_addable(slate: Slate, keychain: KeychainSeed, context: Context, coins: Seq<OutputData>) -> bool {
    &&& slate.tx is Some
    &&& forall|i: int| 0 <= i < context.inputs@.len() ==> #[trigger] input_error(keychain, context, coins, i) is None
    &&& forall|i: int| 0 <= i < context.outputs@.len() ==> #[trigger] output_error(keychain, context, i) is None
    &&& blinding_sum(slate.offset@, context.offset@) is Some
}

/// Adds our inputs and outputs to the slate, then adds our offset share to
/// the slate offset. Succeeds exactly when all of them can be added; the
/// error is that of the first step that fails.
pub fn add_outputs(
    keychain: &KeychainSeed,
    slate: &mut Slate,
    context: &Context,
    coins: &Vec<OutputData>,
) -> (r: Result<(), Error>)
    ensures
        r is Ok <==> outputs_addable(*old(slate), *keychain, *context, coins@),
        old(slate).tx is None ==> r == Err::<(), Error>(Error::MissingTransaction) && *final(slate) == *old(slate),
        old(slate).tx is Some ==> (r matches Err(e) ==> {
            ||| exists|i: int| first_input_error(*keychain, *context, coins@, i)
                && input_error(*keychain, *context, coins@, i) == Some(e)
            ||| (forall|i: int| 0 <= i < context.inputs@.len() ==> #[trigger] input_error(*keychain, *context, coins@, i) is None)
                && exists|i: int| first_output_error(*keychain, *context, i) && output_error(*keychain, *context, i) == Some(e)
            ||| (forall|i: int| 0 <= i < context.inputs@.len() ==> #[trigger] input_error(*keychain, *context, coins@, i) is None)
                && (forall|i: int| 0 <= i < context.outputs@.len() ==> #[trigger] output_error(*keychain, *context, i) is None)
                && e == Error::Secp
        }),
        r is Ok ==> exists|mid: Slate| {
            &&& inputs_added(*old(slate), mid, *keychain, *context, coins@)
            &&& outputs_added(mid, Slate { offset: mid.offset, ..*final(slate) }, *keychain, *context)
            &&& final(slate).offset@ == blinding_sum(old(slate).offset@, context.offset@)->0
        },
        r is Ok && strictly_sorted(input_keys(old(slate).tx->0.inputs@))
            ==> strictly_sorted(input_keys(final(slate).tx->0.inputs@)),
        r is Ok && strictly_sorted(output_keys(old(slate).tx->0.outputs@))
            ==> strictly_sorted(output_keys(final(slate).tx->0.outputs@)),
{
    let ghost s0 = *slate;
    add_inputs_to_slate(keychain, slate, context, coins)?;
    let ghost s1 = *slate;
    add_outputs_to_slate(keychain, slate, context)?;
    let ghost s2 = *slate;
    // Adjust the offset for the added inputs and outputs
    let r = slate.adjust_offset(context);
    proof {
        if r is Ok {
            assert(Slate { offset: s2.offset, ..*slate } == s2);
            assert(inputs_added(s0, s1, *keychain, *context, coins@));
        }
    }
    r
}

} // verus!
