use grin_keychain::{BlindingFactor, ExtKeychain, Identifier, Keychain, SwitchCommitmentType};
use grin_util::secp::key::{PublicKey, SecretKey};
use grin_util::secp::{ContextFlag, Secp256k1};

use wallet_contract::contract::proofs::verify_receiver_sig;
use wallet_contract::contract::slate::{
    add_inputs_to_slate, add_keys, add_outputs, add_outputs_to_slate, can_finalize, finalize, sign,
    transition_state,
};
use wallet_contract::contract::types::{Context, ContextInput, ContextOutput, OutputData};
use wallet_contract::crypto::KeychainSeed;
use wallet_contract::error::Error;
use wallet_contract::slate::{OutputFeatures, ParticipantData, Slate, SlateState};

fn secp() -> Secp256k1 {
    Secp256k1::with_caps(ContextFlag::Commit)
}

fn public_bytes(secret: [u8; 32]) -> [u8; 33] {
    let secp = secp();
    let key = SecretKey::from_slice(&secp, &secret).unwrap();
    let public = PublicKey::from_secret_key(&secp, &key).unwrap();
    let mut out = [0u8; 33];
    out.copy_from_slice(&public.serialize_vec(&secp, true));
    out
}

fn context(sec_key: [u8; 32], sec_nonce: [u8; 32]) -> Context {
    Context {
        sec_key,
        sec_nonce,
        offset: [0; 32],
        parent_key_id: [0; 17],
        inputs: vec![],
        outputs: vec![],
        setup_args: None,
        payment_proof_derivation_index: None,
    }
}

#[test]
fn add_keys_rejects_our_excess_with_a_foreign_nonce() {
    let mut context = context([11; 32], [12; 32]);
    let our_excess = public_bytes(context.sec_key);
    let other = public_bytes([13; 32]);

    let mut slate = Slate::blank(2, false);
    slate.participant_data.push(ParticipantData {
        public_blind_excess: our_excess,
        public_nonce: other,
        part_sig: None,
    });
    assert!(add_keys(&mut slate, &mut context).is_err());
}

#[test]
fn transition_state_rejects_states_it_cannot_advance() {
    for state in [SlateState::Unknown, SlateState::Standard3, SlateState::Invoice3] {
        let mut slate = Slate::blank(2, false);
        slate.state = state.clone();
        assert!(
            transition_state(&mut slate).is_err(),
            "expected {:?} to be rejected",
            state
        );
    }

    // The transitions the contract flows actually use are still accepted
    for (from, to) in [
        (SlateState::Standard1, SlateState::Standard2),
        (SlateState::Standard2, SlateState::Standard3),
        (SlateState::Invoice1, SlateState::Invoice2),
        (SlateState::Invoice2, SlateState::Invoice3),
    ] {
        let mut slate = Slate::blank(2, false);
        slate.state = from;
        transition_state(&mut slate).unwrap();
        assert_eq!(slate.state, to);
    }
}

#[test]
fn transitions_end_after_two_steps() {
    let mut slate = Slate::blank(1, false);
    transition_state(&mut slate).unwrap();
    transition_state(&mut slate).unwrap();
    assert_eq!(slate.state, SlateState::Standard3);
    assert_eq!(
        transition_state(&mut slate),
        Err(Error::CannotAdvanceState(SlateState::Standard3))
    );
    assert_eq!(slate.state, SlateState::Standard3);
}

#[test]
fn add_keys_is_idempotent() {
    let ctx = context([11; 32], [12; 32]);
    let mut slate = Slate::blank(2, false);
    add_keys(&mut slate, &ctx).unwrap();
    assert_eq!(slate.participant_data.len(), 1);
    assert_eq!(slate.participant_data[0].public_blind_excess, public_bytes([11; 32]));
    assert_eq!(slate.participant_data[0].public_nonce, public_bytes([12; 32]));
    let once = slate.clone();
    add_keys(&mut slate, &ctx).unwrap();
    assert_eq!(slate, once);
    // The other party joins, then we add ours again: nothing changes
    let other = context([21; 32], [22; 32]);
    add_keys(&mut slate, &other).unwrap();
    let full = slate.clone();
    assert_eq!(add_keys(&mut slate, &ctx).map(|_| slate.participant_data.len()), Ok(2));
    assert_eq!(slate.participant_data[0].public_blind_excess, full.participant_data[1].public_blind_excess);
    let again = slate.clone();
    add_keys(&mut slate, &ctx).unwrap();
    assert_eq!(slate, again);
    // A third party is refused
    let third = context([31; 32], [32; 32]);
    assert_eq!(add_keys(&mut slate, &third), Err(Error::ParticipantsComplete(2)));
    assert_eq!(slate, again);
    // An invalid secret key is refused
    assert_eq!(add_keys(&mut slate, &context([0; 32], [32; 32])), Err(Error::Secp));
}

fn two_party_slate() -> (Slate, Context, Context) {
    let sender = context([11; 32], [12; 32]);
    let receiver = context([21; 32], [22; 32]);
    let mut slate = Slate::blank(2, false);
    slate.amount = 1_000;
    slate.fee_fields = 8_000_000;
    add_keys(&mut slate, &sender).unwrap();
    add_keys(&mut slate, &receiver).unwrap();
    (slate, sender, receiver)
}

#[test]
fn sign_adds_a_partial_signature_that_verifies() {
    let (mut slate, sender, receiver) = two_party_slate();
    assert!(!can_finalize(&slate));
    sign(&mut slate, &receiver).unwrap();
    assert!(slate.participant_data[0].part_sig.is_none());
    let sig = slate.participant_data[1].part_sig.unwrap();
    // The receiver's partial signature verifies for its excess
    let nonce_sum = slate.pub_nonce_sum().unwrap();
    let blind_sum = slate.pub_blind_sum().unwrap();
    let msg = slate.msg_to_sign().unwrap();
    assert_eq!(
        verify_receiver_sig(
            &sig,
            &slate.participant_data[1].public_nonce,
            &nonce_sum,
            &slate.participant_data[1].public_blind_excess,
            &blind_sum,
            &msg
        ),
        Ok(())
    );
    // It is the signature the aggregate-signature library makes for our keys
    let secp = Secp256k1::with_caps(ContextFlag::Full);
    let expected = grin_core::libtx::aggsig::calculate_partial_sig(
        &secp,
        &SecretKey::from_slice(&secp, &receiver.sec_key).unwrap(),
        &SecretKey::from_slice(&secp, &receiver.sec_nonce).unwrap(),
        &PublicKey::from_slice(&secp, &nonce_sum).unwrap(),
        Some(&PublicKey::from_slice(&secp, &blind_sum).unwrap()),
        &grin_util::secp::Message::from_slice(&msg).unwrap(),
    )
    .unwrap();
    assert_eq!(sig, expected.to_raw_data());
    assert!(!can_finalize(&slate));
    sign(&mut slate, &sender).unwrap();
    assert!(can_finalize(&slate));
}

#[test]
fn sign_signs_the_entry_with_our_excess_and_nonce() {
    let receiver = context([21; 32], [22; 32]);
    let mut slate = Slate::blank(2, false);
    slate.fee_fields = 8_000_000;
    // An earlier entry carries our nonce with another excess
    slate.participant_data.push(ParticipantData {
        public_blind_excess: public_bytes([13; 32]),
        public_nonce: public_bytes(receiver.sec_nonce),
        part_sig: None,
    });
    add_keys(&mut slate, &receiver).unwrap();
    assert_eq!(slate.participant_data.len(), 2);
    sign(&mut slate, &receiver).unwrap();
    assert!(slate.participant_data[0].part_sig.is_none());
    assert!(slate.participant_data[1].part_sig.is_some());
}

#[test]
fn sign_requires_the_declared_participants() {
    let sender = context([11; 32], [12; 32]);
    let mut slate = Slate::blank(2, false);
    add_keys(&mut slate, &sender).unwrap();
    let before = slate.clone();
    assert_eq!(
        sign(&mut slate, &sender),
        Err(Error::ParticipantCountMismatch { declared: 2, present: 1 })
    );
    assert_eq!(slate, before);
    // A context that is not in the slate signs nothing
    let (mut slate, _, _) = two_party_slate();
    let before = slate.clone();
    sign(&mut slate, &context([41; 32], [42; 32])).unwrap();
    assert_eq!(slate, before);
    // Unsupported kernel features
    let (mut slate, sender, _) = two_party_slate();
    slate.kernel_features = 1;
    assert_eq!(sign(&mut slate, &sender), Err(Error::InvalidKernelFeatures(1)));
}

#[test]
fn kernel_message_is_the_digest_of_features_and_fee() {
    let (mut slate, _, _) = two_party_slate();
    let mut plain = vec![0u8];
    plain.extend_from_slice(&8_000_000u64.to_be_bytes());
    assert_eq!(
        &slate.msg_to_sign().unwrap()[..],
        blake2_rfc::blake2b::blake2b(32, &[], &plain).as_bytes()
    );
    slate.kernel_features = 2;
    slate.lock_height = 500;
    let mut locked = vec![2u8];
    locked.extend_from_slice(&8_000_000u64.to_be_bytes());
    locked.extend_from_slice(&500u64.to_be_bytes());
    assert_eq!(
        &slate.msg_to_sign().unwrap()[..],
        blake2_rfc::blake2b::blake2b(32, &[], &locked).as_bytes()
    );
}

#[test]
fn finalize_requires_a_transaction_and_all_signatures() {
    let (mut slate, sender, _) = two_party_slate();
    sign(&mut slate, &sender).unwrap();
    assert_eq!(finalize(&mut slate), Err(Error::MissingPartialSignature(1)));
    // The transaction took the slate offset
    assert_eq!(slate.tx.as_ref().unwrap().offset, slate.offset);
    slate.tx = None;
    assert_eq!(finalize(&mut slate), Err(Error::MissingTransaction));
}

#[test]
fn can_finalize_counts_participants() {
    let mut slate = Slate::blank(1, false);
    assert!(!can_finalize(&slate));
    slate.participant_data.push(ParticipantData {
        public_blind_excess: [2; 33],
        public_nonce: [3; 33],
        part_sig: Some([1; 64]),
    });
    assert!(can_finalize(&slate));
    slate.num_participants = 2;
    assert!(!can_finalize(&slate));
}

fn key_id(n: u8) -> [u8; 17] {
    let mut id = [0u8; 17];
    id[0] = 3;
    id[4] = n;
    id
}

fn keychain_seed() -> KeychainSeed {
    KeychainSeed { seed: vec![21; 32], is_test: true }
}

#[test]
fn add_outputs_contributes_inputs_and_outputs() {
    let keychain = keychain_seed();
    let ext = ExtKeychain::from_seed(&keychain.seed, true).unwrap();
    let mut ctx = context([11; 32], [12; 32]);
    ctx.inputs = vec![
        ContextInput { key_id: key_id(1), mmr_index: Some(4), amount: 60 },
        ContextInput { key_id: key_id(2), mmr_index: Some(9), amount: 50 },
    ];
    ctx.outputs = vec![ContextOutput { key_id: key_id(3), amount: 90 }];
    ctx.offset = [5; 32];
    let coins = vec![
        OutputData { key_id: key_id(1), mmr_index: Some(4), value: 60, is_coinbase: true },
        OutputData { key_id: key_id(2), mmr_index: Some(9), value: 50, is_coinbase: false },
    ];
    let mut slate = Slate::blank(2, false);
    add_outputs(&keychain, &mut slate, &ctx, &coins).unwrap();
    let tx = slate.tx.as_ref().unwrap();
    assert_eq!(tx.inputs.len(), 2);
    assert_eq!(tx.outputs.len(), 1);
    // Each input commits to its stored value under its key, each output to its amount
    let commit = |v: u64, id: &[u8; 17]| {
        ext.commit(v, &Identifier::from_bytes(id), SwitchCommitmentType::Regular).unwrap().0
    };
    let coinbase = tx.inputs.iter().find(|i| i.commit == commit(60, &key_id(1))).unwrap();
    assert_eq!(coinbase.features, OutputFeatures::Coinbase);
    let plain = tx.inputs.iter().find(|i| i.commit == commit(50, &key_id(2))).unwrap();
    assert_eq!(plain.features, OutputFeatures::Plain);
    // The inputs are in the order of their keys
    let key = |features: u8, c: &[u8; 33]| {
        let mut data = vec![features];
        data.extend_from_slice(c);
        blake2_rfc::blake2b::blake2b(32, &[], &data).as_bytes().to_vec()
    };
    let byte = |f: OutputFeatures| if f == OutputFeatures::Coinbase { 1u8 } else { 0u8 };
    assert!(key(byte(tx.inputs[0].features), &tx.inputs[0].commit) < key(byte(tx.inputs[1].features), &tx.inputs[1].commit));
    assert_eq!(tx.outputs[0].features, OutputFeatures::Plain);
    assert_eq!(tx.outputs[0].commit, commit(90, &key_id(3)));
    let proof = grin_core::libtx::proof::create(
        &ext,
        &grin_core::libtx::proof::ProofBuilder::new(&ext),
        90,
        &Identifier::from_bytes(&key_id(3)),
        SwitchCommitmentType::Regular,
        grin_util::secp::pedersen::Commitment(tx.outputs[0].commit),
        None,
    )
    .unwrap();
    assert_eq!(tx.outputs[0].proof, proof.bytes().to_vec());
    // An input or output already in the transaction is not added again
    let mut twice = slate.clone();
    add_inputs_to_slate(&keychain, &mut twice, &ctx, &coins).unwrap();
    add_outputs_to_slate(&keychain, &mut twice, &ctx).unwrap();
    assert_eq!(twice.tx, slate.tx);
    // Our share was added to the zero offset
    assert_eq!(slate.offset, [5; 32]);
    // A stored output that is not the one named is refused
    let wrong = vec![coins[1].clone(), coins[0].clone()];
    let mut slate = Slate::blank(2, false);
    assert_eq!(add_inputs_to_slate(&keychain, &mut slate, &ctx, &wrong), Err(Error::CoinMismatch(0)));
    assert_eq!(add_inputs_to_slate(&keychain, &mut slate, &ctx, &coins[..1].to_vec()), Err(Error::CoinMismatch(1)));
    // A key deeper than a key path holds is refused, not derived
    let mut deep = ctx.clone();
    deep.outputs[0].key_id[0] = 5;
    let mut slate = Slate::blank(2, false);
    assert_eq!(add_outputs_to_slate(&keychain, &mut slate, &deep), Err(Error::KeyIdTooDeep(5)));
    let mut deep_coins = coins.clone();
    deep_coins[0].key_id[0] = 7;
    deep.inputs[0].key_id[0] = 7;
    assert_eq!(add_inputs_to_slate(&keychain, &mut slate, &deep, &deep_coins), Err(Error::KeyIdTooDeep(7)));
    // Nothing to add succeeds and changes nothing
    let mut empty = ctx.clone();
    empty.inputs.clear();
    empty.outputs.clear();
    let mut slate = Slate::blank(2, false);
    let before = slate.clone();
    add_inputs_to_slate(&keychain, &mut slate, &empty, &vec![]).unwrap();
    add_outputs_to_slate(&keychain, &mut slate, &empty).unwrap();
    assert_eq!(slate, before);
    // A slate without a transaction takes nothing
    slate.tx = None;
    assert_eq!(add_outputs_to_slate(&keychain, &mut slate, &ctx), Err(Error::MissingTransaction));
    assert_eq!(add_outputs(&keychain, &mut slate, &ctx, &coins), Err(Error::MissingTransaction));
}

#[test]
fn self_spend_finalizes_with_a_valid_kernel() {
    let seed = keychain_seed();
    let keychain = ExtKeychain::from_seed(&seed.seed, true).unwrap();
    let secp = keychain.secp();
    let (in_id, out_id) = (key_id(1), key_id(2));
    let r_in = keychain.derive_key(100, &Identifier::from_bytes(&in_id), SwitchCommitmentType::Regular).unwrap();
    let r_out = keychain.derive_key(90, &Identifier::from_bytes(&out_id), SwitchCommitmentType::Regular).unwrap();
    let offset = SecretKey::from_slice(secp, &[5; 32]).unwrap();
    let excess = secp.blind_sum(vec![r_out], vec![r_in, offset]).unwrap();
    let mut ctx = context([0; 32], [12; 32]);
    ctx.sec_key.copy_from_slice(&excess[..]);
    ctx.offset = [5; 32];
    ctx.inputs = vec![ContextInput { key_id: in_id, mmr_index: Some(1), amount: 100 }];
    ctx.outputs = vec![ContextOutput { key_id: out_id, amount: 90 }];
    let coins = vec![OutputData { key_id: in_id, mmr_index: Some(1), value: 100, is_coinbase: false }];

    let mut slate = Slate::blank(1, false);
    slate.fee_fields = 10;
    add_keys(&mut slate, &ctx).unwrap();
    add_outputs(&seed, &mut slate, &ctx, &coins).unwrap();
    sign(&mut slate, &ctx).unwrap();
    assert!(can_finalize(&slate));
    finalize(&mut slate).unwrap();
    let tx = slate.tx.as_ref().unwrap();
    assert_eq!(tx.offset, [5; 32]);
    let kernel = tx.kernel.as_ref().unwrap();
    // The kernel excess is the commitment to our excess key
    let expected = secp.commit(0, excess).unwrap();
    assert_eq!(kernel.excess, expected.0);

    // A slate whose fee does not balance cannot be finalized
    let mut unbalanced = Slate::blank(1, false);
    unbalanced.fee_fields = 11;
    add_keys(&mut unbalanced, &ctx).unwrap();
    add_outputs(&seed, &mut unbalanced, &ctx, &coins).unwrap();
    sign(&mut unbalanced, &ctx).unwrap();
    let before = unbalanced.clone();
    assert_eq!(finalize(&mut unbalanced), Err(Error::KernelBuild));
    assert_eq!(unbalanced.participant_data, before.participant_data);
}

#[test]
fn offsets_add_up() {
    let secp = secp();
    let mut ctx = context([11; 32], [12; 32]);
    ctx.offset = [5; 32];
    let mut slate = Slate::blank(2, false);
    slate.adjust_offset(&ctx).unwrap();
    assert_eq!(slate.offset, [5; 32]);
    ctx.offset = [6; 32];
    slate.adjust_offset(&ctx).unwrap();
    let expected = BlindingFactor::from_slice(&[5; 32])
        .add(&BlindingFactor::from_slice(&[6; 32]), &secp)
        .unwrap();
    assert_eq!(&slate.offset[..], expected.as_ref());
    assert_ne!(slate.offset, [6; 32]);
}

#[test]
fn nonce_and_excess_sums_match_the_curve() {
    let (slate, _, _) = two_party_slate();
    let secp = secp();
    let keys: Vec<PublicKey> = [[12u8; 32], [22u8; 32]]
        .iter()
        .map(|k| PublicKey::from_secret_key(&secp, &SecretKey::from_slice(&secp, k).unwrap()).unwrap())
        .collect();
    let sum = PublicKey::from_combination(&secp, keys.iter().collect()).unwrap();
    assert_eq!(&slate.pub_nonce_sum().unwrap()[..], &sum.serialize_vec(&secp, true)[..]);
    assert_ne!(slate.pub_nonce_sum().unwrap(), slate.pub_blind_sum().unwrap());
}

#[test]
fn kernel_message_agrees_with_the_kernel_features() {
    let (slate, _, _) = two_party_slate();
    let fee = grin_core::core::FeeFields::try_from(8_000_000u64).unwrap();
    let msg = grin_core::core::KernelFeatures::Plain { fee }.kernel_sig_msg().unwrap();
    assert_eq!(&slate.msg_to_sign().unwrap()[..], &msg[..]);
}

#[test]
fn inputs_and_outputs_follow_the_order_grin_keeps() {
    let keychain = keychain_seed();
    let mut ctx = context([11; 32], [12; 32]);
    ctx.inputs = (1..5u8)
        .map(|n| ContextInput { key_id: key_id(n), mmr_index: Some(n as u64), amount: 10 * n as u64 })
        .collect();
    ctx.outputs = (5..8u8).map(|n| ContextOutput { key_id: key_id(n), amount: 10 * n as u64 }).collect();
    let coins: Vec<OutputData> = (1..5u8)
        .map(|n| OutputData { key_id: key_id(n), mmr_index: Some(n as u64), value: 10 * n as u64, is_coinbase: n % 2 == 0 })
        .collect();
    let mut slate = Slate::blank(2, false);
    add_inputs_to_slate(&keychain, &mut slate, &ctx, &coins).unwrap();
    add_outputs_to_slate(&keychain, &mut slate, &ctx).unwrap();
    let tx = slate.tx.unwrap();

    let features = |f: OutputFeatures| if f == OutputFeatures::Coinbase { grin_core::core::OutputFeatures::Coinbase } else { grin_core::core::OutputFeatures::Plain };
    // Grin's body, given the same elements in the same order
    let mut body = grin_core::core::TransactionBody::empty().replace_inputs(grin_core::core::Inputs::FeaturesAndCommit(vec![]));
    for input in tx.inputs.iter().rev() {
        body = body.with_input(grin_core::core::Input::new(features(input.features), grin_util::secp::pedersen::Commitment(input.commit)));
    }
    for output in tx.outputs.iter().rev() {
        body = body.with_output(grin_core::core::Output::new(
            features(output.features),
            grin_util::secp::pedersen::Commitment(output.commit),
            grin_util::secp::pedersen::RangeProof::zero(),
        ));
    }
    match body.inputs() {
        grin_core::core::Inputs::FeaturesAndCommit(inputs) => {
            let grin: Vec<[u8; 33]> = inputs.iter().map(|i| i.commit.0).collect();
            let ours: Vec<[u8; 33]> = tx.inputs.iter().map(|i| i.commit).collect();
            assert_eq!(grin, ours);
        }
        grin_core::core::Inputs::CommitOnly(_) => panic!("inputs lost their features"),
    }
    let grin: Vec<[u8; 33]> = body.outputs().iter().map(|o| o.identifier.commit.0).collect();
    let ours: Vec<[u8; 33]> = tx.outputs.iter().map(|o| o.commit).collect();
    assert_eq!(grin, ours);
    assert_eq!(tx.inputs.len(), 4);
    assert_eq!(tx.outputs.len(), 3);
}

#[test]
fn a_fee_free_self_spend_finalizes() {
    let seed = keychain_seed();
    let keychain = ExtKeychain::from_seed(&seed.seed, true).unwrap();
    let secp = keychain.secp();
    let (in_id, out_id) = (key_id(1), key_id(2));
    let r_in = keychain.derive_key(100, &Identifier::from_bytes(&in_id), SwitchCommitmentType::Regular).unwrap();
    let r_out = keychain.derive_key(100, &Identifier::from_bytes(&out_id), SwitchCommitmentType::Regular).unwrap();
    let offset = SecretKey::from_slice(secp, &[5; 32]).unwrap();
    let excess = secp.blind_sum(vec![r_out], vec![r_in, offset]).unwrap();
    let mut ctx = context([0; 32], [12; 32]);
    ctx.sec_key.copy_from_slice(&excess[..]);
    ctx.offset = [5; 32];
    ctx.inputs = vec![ContextInput { key_id: in_id, mmr_index: Some(1), amount: 100 }];
    ctx.outputs = vec![ContextOutput { key_id: out_id, amount: 100 }];
    let coins = vec![OutputData { key_id: in_id, mmr_index: Some(1), value: 100, is_coinbase: false }];

    let mut slate = Slate::blank(1, false);
    add_keys(&mut slate, &ctx).unwrap();
    add_outputs(&seed, &mut slate, &ctx, &coins).unwrap();
    sign(&mut slate, &ctx).unwrap();
    finalize(&mut slate).unwrap();
    let kernel = slate.tx.as_ref().unwrap().kernel.as_ref().unwrap();
    assert_eq!(kernel.excess, secp.commit(0, excess).unwrap().0);
    // A slate without a transaction cannot be finalized
    let mut empty = Slate::blank(1, false);
    empty.tx = None;
    assert_eq!(empty.finalize(), Err(Error::MissingTransaction));
}
