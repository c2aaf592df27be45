use grin_core::libtx::aggsig;
use grin_util::secp::key::{PublicKey, SecretKey};
use grin_util::secp::pedersen::Commitment as SecpCommitment;
use grin_util::secp::{ContextFlag, Message, Secp256k1};

use wallet_contract::contract::proofs::{
    check_proof_type, generate_invoice_signature, verify_receiver_sig, InvoiceProof,
    InvoiceProofBin, ProofWitness,
};
use wallet_contract::contract::slate::{add_payment_proof, payment_proof_required, verify_payment_proof};
use wallet_contract::contract::types::{Context, ProofArgs, ProofType};
use wallet_contract::error::Error;
use wallet_contract::slate::{ParticipantData, PaymentInfo, PaymentMemo, PaymentProofType, Slate};

fn key_bytes(secp: &Secp256k1, key: &PublicKey) -> [u8; 33] {
    let mut out = [0u8; 33];
    out.copy_from_slice(&key.serialize_vec(secp, true));
    out
}

fn public_of(secp: &Secp256k1, secret: [u8; 32]) -> PublicKey {
    let key = SecretKey::from_slice(secp, &secret).unwrap();
    PublicKey::from_secret_key(secp, &key).unwrap()
}

fn dalek_address(secret: [u8; 32]) -> [u8; 32] {
    ed25519_dalek::SigningKey::from_bytes(&secret).verifying_key().to_bytes()
}

/// A two-party invoice slate whose receiver is participant 1 and that carries
/// a payment proof with a memo.
fn populate_test_slate() -> Slate {
    let secp = Secp256k1::with_caps(ContextFlag::Commit);
    let mut slate = Slate::blank(2, true);
    slate.amount = 1234;
    slate.participant_data = vec![
        ParticipantData {
            public_blind_excess: key_bytes(&secp, &public_of(&secp, [1; 32])),
            public_nonce: key_bytes(&secp, &public_of(&secp, [3; 32])),
            part_sig: None,
        },
        ParticipantData {
            public_blind_excess: key_bytes(&secp, &public_of(&secp, [2; 32])),
            public_nonce: key_bytes(&secp, &public_of(&secp, [4; 32])),
            part_sig: None,
        },
    ];
    slate.payment_proof = Some(PaymentInfo {
        proof_type: PaymentProofType::Invoice,
        sender_address: Some(dalek_address([8; 32])),
        receiver_address: dalek_address([9; 32]),
        timestamp: Some(1_700_000_000),
        promise_signature: Some([0; 64]),
        memo: Some(PaymentMemo::new("payment for invoice 42".to_string()).unwrap()),
    });
    slate
}

#[test]
fn rejects_unsupported_proofs() {
    assert!(check_proof_type(&ProofType::Invoice).is_ok());
    assert!(check_proof_type(&ProofType::Legacy).is_err());
    assert!(check_proof_type(&ProofType::SenderNonce).is_err());
}

#[test]
fn checks_receiver_nonce() {
    let secp = Secp256k1::with_caps(ContextFlag::Commit);
    let sender_key = SecretKey::from_slice(&secp, &[1; 32]).unwrap();
    let receiver_key = SecretKey::from_slice(&secp, &[2; 32]).unwrap();
    let sender_nonce = SecretKey::from_slice(&secp, &[3; 32]).unwrap();
    let receiver_nonce = SecretKey::from_slice(&secp, &[4; 32]).unwrap();
    let sender_pub_nonce = PublicKey::from_secret_key(&secp, &sender_nonce).unwrap();
    let receiver_pub_nonce = PublicKey::from_secret_key(&secp, &receiver_nonce).unwrap();
    let sender_excess = PublicKey::from_secret_key(&secp, &sender_key).unwrap();
    let receiver_excess = PublicKey::from_secret_key(&secp, &receiver_key).unwrap();
    let pub_nonce_sum =
        PublicKey::from_combination(&secp, vec![&sender_pub_nonce, &receiver_pub_nonce]).unwrap();
    let pub_blind_sum =
        PublicKey::from_combination(&secp, vec![&sender_excess, &receiver_excess]).unwrap();
    let msg = Message::from_slice(&[5; 32]).unwrap();
    let sig = aggsig::calculate_partial_sig(
        &secp,
        &receiver_key,
        &receiver_nonce,
        &pub_nonce_sum,
        Some(&pub_blind_sum),
        &msg,
    )
    .unwrap();

    assert!(verify_receiver_sig(
        &sig.to_raw_data(),
        &key_bytes(&secp, &receiver_pub_nonce),
        &key_bytes(&secp, &pub_nonce_sum),
        &key_bytes(&secp, &receiver_excess),
        &key_bytes(&secp, &pub_blind_sum),
        &[5; 32],
    )
    .is_ok());
    assert!(verify_receiver_sig(
        &sig.to_raw_data(),
        &key_bytes(&secp, &sender_pub_nonce),
        &key_bytes(&secp, &pub_nonce_sum),
        &key_bytes(&secp, &receiver_excess),
        &key_bytes(&secp, &pub_blind_sum),
        &[5; 32],
    )
    .is_err());
}

#[test]
fn receiver_sig_errors_name_the_failed_check() {
    let secp = Secp256k1::with_caps(ContextFlag::Commit);
    let receiver_nonce = public_of(&secp, [4; 32]);
    let nonce = key_bytes(&secp, &receiver_nonce);
    // A signature carrying the receiver nonce but signed by nobody
    let mut sig = [0u8; 64];
    sig[..32].copy_from_slice(&nonce[1..33]);
    sig[32] = 1;
    let other = key_bytes(&secp, &public_of(&secp, [6; 32]));
    assert_eq!(
        verify_receiver_sig(&sig, &nonce, &other, &other, &other, &[5; 32]),
        Err(Error::PartialSignatureInvalid)
    );
    assert_eq!(
        verify_receiver_sig(&sig, &other, &other, &other, &other, &[5; 32]),
        Err(Error::ReceiverNonceMismatch)
    );
}

#[test]
fn ser_invoice_proof_bin() -> Result<(), Error> {
    let mut slate = populate_test_slate();
    slate.amount |= 0xFF00_0000_0000_0000;
    // Bin serialization doesn't include promise sig as it's used to create signature data
    slate.payment_proof.as_mut().unwrap().promise_signature = None;

    // Should fail, amount too big
    let invoice_proof = InvoiceProof::from_slate(&slate, 1, None)?;
    assert!(InvoiceProofBin(&invoice_proof).write().is_err());

    // Should be okay now
    slate.amount = 1234;
    let mut invoice_proof = InvoiceProof::from_slate(&slate, 1, None)?;
    let vec = InvoiceProofBin(&invoice_proof)
        .write()
        .expect("Serialization Failed");
    let memo = invoice_proof.memo.as_ref().unwrap().as_str();
    assert_eq!(
        &vec[vec.len() - 32..],
        blake2_rfc::blake2b::blake2b(32, &[], memo.as_bytes()).as_bytes()
    );
    let proof_key = [7u8; 32];
    let (signature, recipient) = invoice_proof.sign(&proof_key)?;
    invoice_proof.promise_signature = Some(signature);
    invoice_proof.verify_promise_signature(&recipient)?;
    invoice_proof.memo = Some(PaymentMemo::new("changed details".to_string())?);
    assert!(invoice_proof.verify_promise_signature(&recipient).is_err());

    let mut wrong_type = invoice_proof;
    wrong_type.proof_type = PaymentProofType::Legacy;
    assert!(wrong_type
        .verify_promise_signature(&slate.payment_proof.unwrap().receiver_address)
        .is_err());
    Ok(())
}

#[test]
fn memo_limit() {
    assert!(PaymentMemo::new("a".repeat(PaymentMemo::MAX_LEN)).is_ok());
    assert!(PaymentMemo::new("a".repeat(PaymentMemo::MAX_LEN + 1)).is_err());
    assert!(PaymentMemo::new("ä".repeat(PaymentMemo::MAX_LEN / 2)).is_ok());
    assert!(PaymentMemo::new("ä".repeat(PaymentMemo::MAX_LEN / 2 + 1)).is_err());
}

#[test]
fn memo_limit_reports_the_length() {
    assert_eq!(
        PaymentMemo::new("b".repeat(PaymentMemo::MAX_LEN + 3)),
        Err(Error::MemoTooLong { len: PaymentMemo::MAX_LEN + 3, max: PaymentMemo::MAX_LEN })
    );
    assert_eq!(PaymentMemo::new("hello".to_string()).unwrap().as_str(), "hello");
}

#[test]
fn binary_proof_layout() {
    let slate = populate_test_slate();
    let proof = InvoiceProof::from_slate(&slate, 1, None).unwrap();
    let bin = InvoiceProofBin(&proof).write().unwrap();
    // type, 7 amount bytes, two keys, address, timestamp, memo digest
    assert_eq!(bin.len(), 1 + 7 + 33 + 33 + 32 + 8 + 32);
    assert_eq!(bin[0], 1);
    assert_eq!(&bin[1..8], &[0, 0, 0, 0, 0, 0x04, 0xd2]);
    assert_eq!(&bin[8..41], &slate.participant_data[1].public_nonce[..]);
    assert_eq!(&bin[41..74], &slate.participant_data[1].public_blind_excess[..]);
    assert_eq!(&bin[74..106], &dalek_address([8; 32])[..]);
    assert_eq!(&bin[106..114], &1_700_000_000i64.to_be_bytes()[..]);
    // The largest amount that fits, and the error on the next one
    let mut big = proof.clone();
    big.amount = 0x00FF_FFFF_FFFF_FFFF;
    assert!(InvoiceProofBin(&big).write().is_ok());
    big.amount = 0x0100_0000_0000_0000;
    assert_eq!(
        InvoiceProofBin(&big).write(),
        Err(Error::ProofSerialization { expected: vec![0], received: vec![1] })
    );
    // Without a memo the digest is that of no bytes
    let mut no_memo = proof;
    no_memo.memo = None;
    let bin = InvoiceProofBin(&no_memo).write().unwrap();
    assert_eq!(&bin[114..], blake2_rfc::blake2b::blake2b(32, &[], &[]).as_bytes());
}

#[test]
fn from_slate_errors() {
    let slate = populate_test_slate();
    assert_eq!(
        InvoiceProof::from_slate(&slate, 2, None),
        Err(Error::ParticipantIndexOutOfRange { index: 2, len: 2 })
    );
    let mut no_sender = slate.clone();
    no_sender.payment_proof.as_mut().unwrap().sender_address = None;
    assert_eq!(InvoiceProof::from_slate(&no_sender, 1, None), Err(Error::NoSenderAddressProvided));
    // A given address is used instead
    let p = InvoiceProof::from_slate(&no_sender, 1, Some([5; 32])).unwrap();
    assert_eq!(p.sender_address, [5; 32]);
    let mut no_time = slate.clone();
    no_time.payment_proof.as_mut().unwrap().timestamp = None;
    assert_eq!(InvoiceProof::from_slate(&no_time, 1, None), Err(Error::MissingProofTimestamp));
    // Without payment information, an invoice proof with a zero timestamp
    let mut bare = slate;
    bare.payment_proof = None;
    assert_eq!(InvoiceProof::from_slate(&bare, 0, None), Err(Error::NoSenderAddressProvided));
    let p = InvoiceProof::from_slate(&bare, 0, Some([5; 32])).unwrap();
    assert_eq!(p.proof_type, PaymentProofType::Invoice);
    assert_eq!(p.timestamp, 0);
    assert_eq!(p.memo, None);
    assert_eq!(p.promise_signature, None);
    assert_eq!(p.amount, 1234);
    assert_eq!(p.receiver_public_nonce, bare.participant_data[0].public_nonce);
}

#[test]
fn promise_signature_errors() {
    let slate = populate_test_slate();
    let mut proof = InvoiceProof::from_slate(&slate, 1, None).unwrap();
    proof.promise_signature = None;
    let recipient = dalek_address([7; 32]);
    assert_eq!(proof.verify_promise_signature(&recipient), Err(Error::MissingPromiseSignature));
    let (sig, addr) = proof.sign(&[7; 32]).unwrap();
    assert_eq!(addr, recipient);
    proof.promise_signature = Some(sig);
    assert_eq!(proof.verify_promise_signature(&addr), Ok(()));
    // Another address does not verify
    assert_eq!(
        proof.verify_promise_signature(&dalek_address([6; 32])),
        Err(Error::InvalidRecipientSignature)
    );
    proof.proof_type = PaymentProofType::SenderNonce;
    assert_eq!(
        proof.verify_promise_signature(&addr),
        Err(Error::ProofTypeMismatch {
            expected_type: PaymentProofType::Invoice,
            found_type: PaymentProofType::SenderNonce
        })
    );
}

#[test]
fn witness_checks_the_kernel_signature() {
    let secp = Secp256k1::with_caps(ContextFlag::Commit);
    let sender_key = SecretKey::from_slice(&secp, &[1; 32]).unwrap();
    let receiver_key = SecretKey::from_slice(&secp, &[2; 32]).unwrap();
    let sender_nonce = SecretKey::from_slice(&secp, &[3; 32]).unwrap();
    let receiver_nonce = SecretKey::from_slice(&secp, &[4; 32]).unwrap();
    let nonce_sum = PublicKey::from_combination(
        &secp,
        vec![&public_of(&secp, [3; 32]), &public_of(&secp, [4; 32])],
    )
    .unwrap();
    let blind_sum = PublicKey::from_combination(
        &secp,
        vec![&public_of(&secp, [1; 32]), &public_of(&secp, [2; 32])],
    )
    .unwrap();
    let msg = Message::from_slice(&[5; 32]).unwrap();
    let sender_sig =
        aggsig::calculate_partial_sig(&secp, &sender_key, &sender_nonce, &nonce_sum, Some(&blind_sum), &msg)
            .unwrap();
    let receiver_sig = aggsig::calculate_partial_sig(
        &secp,
        &receiver_key,
        &receiver_nonce,
        &nonce_sum,
        Some(&blind_sum),
        &msg,
    )
    .unwrap();
    let excess_sig = aggsig::add_signatures(&secp, vec![&sender_sig, &receiver_sig], &nonce_sum).unwrap();
    let kernel_commitment = SecpCommitment::from_pubkey(&secp, &blind_sum).unwrap();

    let slate = populate_test_slate();
    let mut proof = InvoiceProof::from_slate(&slate, 1, None).unwrap();
    let (sig, addr) = proof.sign(&[7; 32]).unwrap();
    proof.promise_signature = Some(sig);
    assert_eq!(
        proof.verify_witness(&addr, &excess_sig.to_raw_data(), &[5; 32]),
        Err(Error::MissingWitnessData)
    );
    proof.witness_data = Some(ProofWitness {
        kernel_index: 3,
        kernel_commitment: kernel_commitment.0,
        sender_partial_sig: sender_sig.to_raw_data(),
    });
    assert_eq!(proof.verify_witness(&addr, &excess_sig.to_raw_data(), &[5; 32]), Ok(()));
    // Another message does not verify
    assert!(proof.verify_witness(&addr, &excess_sig.to_raw_data(), &[6; 32]).is_err());
    // Nor does a promise of another receiver
    let mut other = proof.clone();
    other.receiver_public_nonce = slate.participant_data[0].public_nonce;
    let (sig, addr2) = {
        other.promise_signature = None;
        other.sign(&[7; 32]).unwrap()
    };
    other.promise_signature = Some(sig);
    assert!(other.verify_witness(&addr2, &excess_sig.to_raw_data(), &[5; 32]).is_err());
}

fn receiver_context() -> Context {
    Context {
        sec_key: [2; 32],
        sec_nonce: [4; 32],
        offset: [0; 32],
        parent_key_id: [0; 17],
        inputs: vec![],
        outputs: vec![],
        setup_args: None,
        payment_proof_derivation_index: None,
    }
}

fn invoice_args(sender: Option<[u8; 32]>) -> ProofArgs {
    ProofArgs { suppress_proof: false, proof_type: ProofType::Invoice, sender_address: sender }
}

#[test]
fn added_payment_proof_verifies_for_the_sender() {
    let mut slate = populate_test_slate();
    slate.payment_proof = None;
    let sender = dalek_address([8; 32]);
    let recp_key = [7u8; 32];
    assert_eq!(payment_proof_required(&slate, &Some(1234), &invoice_args(Some(sender))), Ok(true));
    add_payment_proof(&mut slate, &receiver_context(), &Some(1234), &invoice_args(Some(sender)), &recp_key, 1_700_000_100)
        .unwrap();
    let info = slate.payment_proof.clone().unwrap();
    assert_eq!(info.receiver_address, dalek_address(recp_key));
    assert_eq!(info.sender_address, Some(sender));
    assert_eq!(info.timestamp, Some(1_700_000_100));
    assert_eq!(info.proof_type, PaymentProofType::Invoice);
    assert!(info.promise_signature.is_some());
    assert_eq!(verify_payment_proof(&slate, 1234, &info.receiver_address), Ok(()));
    // The proof binds the amount
    let mut changed = slate.clone();
    changed.amount = 1235;
    assert_eq!(
        verify_payment_proof(&changed, 1234, &info.receiver_address),
        Err(Error::InvalidRecipientSignature)
    );
    // A sender does not check, nor does a slate without a proof
    assert_eq!(verify_payment_proof(&changed, -1234, &info.receiver_address), Ok(()));
    // Nothing is added twice
    let before = slate.clone();
    add_payment_proof(&mut slate, &receiver_context(), &Some(1234), &invoice_args(Some(sender)), &recp_key, 1)
        .unwrap();
    assert_eq!(slate, before);
}

#[test]
fn payment_proof_is_skipped_or_rejected() {
    let mut slate = populate_test_slate();
    slate.payment_proof = None;
    let before = slate.clone();
    // Senders and suppressed proofs add nothing
    add_payment_proof(&mut slate, &receiver_context(), &Some(-5), &invoice_args(None), &[7; 32], 0).unwrap();
    add_payment_proof(&mut slate, &receiver_context(), &None, &invoice_args(None), &[7; 32], 0).unwrap();
    let suppressed = ProofArgs { suppress_proof: true, proof_type: ProofType::Legacy, sender_address: None };
    add_payment_proof(&mut slate, &receiver_context(), &Some(5), &suppressed, &[7; 32], 0).unwrap();
    assert_eq!(slate, before);
    // Unsupported kinds are refused
    let legacy = ProofArgs { suppress_proof: false, proof_type: ProofType::Legacy, sender_address: None };
    assert_eq!(
        add_payment_proof(&mut slate, &receiver_context(), &Some(5), &legacy, &[7; 32], 0),
        Err(Error::UnsupportedProofType)
    );
    // No sender address anywhere
    assert_eq!(
        add_payment_proof(&mut slate, &receiver_context(), &Some(5), &invoice_args(None), &[7; 32], 0),
        Err(Error::NoSenderAddressProvided)
    );
    // A timestamp beyond the calendar
    assert_eq!(
        add_payment_proof(&mut slate, &receiver_context(), &Some(5), &invoice_args(Some([8; 32])), &[7; 32], i64::MAX),
        Err(Error::InvalidProofTimestamp(i64::MAX))
    );
    // The calendar's first and last seconds are accepted, those beyond are not
    for (now, ok) in [
        (8_210_266_876_799i64, true),
        (8_210_266_876_800, false),
        (-8_334_601_228_800, true),
        (-8_334_601_228_801, false),
    ] {
        let mut copy = slate.clone();
        let r = add_payment_proof(&mut copy, &receiver_context(), &Some(5), &invoice_args(Some([8; 32])), &[7; 32], now);
        assert_eq!(r.is_ok(), ok, "timestamp {}", now);
        if !ok {
            assert_eq!(r, Err(Error::InvalidProofTimestamp(now)));
        }
    }
    // A context that is not in the slate
    let mut stranger = receiver_context();
    stranger.sec_key = [9; 32];
    assert_eq!(
        add_payment_proof(&mut slate, &stranger, &Some(5), &invoice_args(Some([8; 32])), &[7; 32], 0),
        Err(Error::ContextNotInSlate)
    );
    assert_eq!(slate, before);
}

#[test]
fn generated_invoice_signature_uses_our_entry() {
    let slate = populate_test_slate();
    let (proof, sig, addr) =
        generate_invoice_signature(&slate, &receiver_context(), &invoice_args(None), &[7; 32], 77).unwrap();
    assert_eq!(proof.timestamp, 77);
    assert_eq!(proof.receiver_public_excess, slate.participant_data[1].public_blind_excess);
    assert_eq!(addr, dalek_address([7; 32]));
    let mut signed = proof;
    signed.promise_signature = Some(sig);
    assert_eq!(signed.verify_promise_signature(&addr), Ok(()));
}
