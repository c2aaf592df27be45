use wallet_contract::contract::actions::view::{
    check_viewable, own_commitment_check, suggested_net_change, view, OwnCommitmentCheck,
};
use wallet_contract::contract::types::{Context, OwnCommitmentStatus, SetupArgs, TxLogEntry};
use wallet_contract::error::Error;
use wallet_contract::slate::{ParticipantData, Slate, SlateState};

#[test]
fn suggested_change_direction() {
    assert_eq!(
        suggested_net_change(&SlateState::Standard1, 10).unwrap(),
        Some(10)
    );
    assert_eq!(
        suggested_net_change(&SlateState::Invoice1, 10).unwrap(),
        Some(-10)
    );
    assert_eq!(
        suggested_net_change(&SlateState::Standard2, 10).unwrap(),
        None
    );
}

#[test]
fn suggested_change_rejects_amounts_beyond_i64() {
    let too_big = i64::MAX as u64 + 1;
    assert_eq!(
        suggested_net_change(&SlateState::Standard1, too_big),
        Err(Error::AmountExceedsI64(too_big))
    );
    assert_eq!(
        suggested_net_change(&SlateState::Invoice1, i64::MAX as u64),
        Ok(Some(-i64::MAX))
    );
    // Later states suggest nothing, whatever the amount
    assert_eq!(suggested_net_change(&SlateState::Invoice3, too_big), Ok(None));
}

fn context_with_net_change(net_change: Option<i64>) -> Context {
    Context {
        sec_key: [1; 32],
        sec_nonce: [2; 32],
        offset: [0; 32],
        parent_key_id: [0; 17],
        inputs: vec![],
        outputs: vec![],
        setup_args: Some(SetupArgs { net_change }),
        payment_proof_derivation_index: None,
    }
}

fn entry(signed: bool) -> ParticipantData {
    ParticipantData {
        public_blind_excess: [2; 33],
        public_nonce: [3; 33],
        part_sig: if signed { Some([4; 64]) } else { None },
    }
}

#[test]
fn view_rejects_unknown_state_and_bad_participant_counts() {
    let mut slate = Slate::blank(2, false);
    slate.state = SlateState::Unknown;
    assert_eq!(check_viewable(&slate), Err(Error::UnknownSlateState));
    assert_eq!(
        view(&slate, &None, &vec![], OwnCommitmentStatus::AsExpected),
        Err(Error::UnknownSlateState)
    );
    let slate = Slate::blank(3, false);
    assert_eq!(
        view(&slate, &None, &vec![], OwnCommitmentStatus::AsExpected),
        Err(Error::UnsupportedNumParticipants(3))
    );
    let slate = Slate::blank(0, true);
    assert_eq!(check_viewable(&slate), Err(Error::UnsupportedNumParticipants(0)));
}

#[test]
fn view_reports_signatures_changes_and_execution() {
    let mut slate = Slate::blank(2, true);
    slate.id = 7;
    slate.amount = 25;
    slate.participant_data = vec![entry(true), entry(false)];
    let context = Some(context_with_net_change(Some(-25)));
    let txs = vec![
        TxLogEntry { tx_slate_id: Some(7), confirmed: false, signed: true },
        TxLogEntry { tx_slate_id: Some(7), confirmed: true, signed: false },
    ];
    assert_eq!(own_commitment_check(&slate, &context, &txs), OwnCommitmentCheck::WithContext);
    let v = view(&slate, &context, &txs, OwnCommitmentStatus::Unexpected).unwrap();
    assert_eq!(v.num_participants, 2);
    assert_eq!(v.suggested_net_change, Some(-25));
    assert_eq!(v.agreed_net_change, Some(-25));
    assert_eq!(v.num_sigs, 1);
    assert!(v.is_executed);
    assert_eq!(v.own_commitment_status, OwnCommitmentStatus::Unexpected);
}

#[test]
fn view_reports_unknown_commitments_without_context_or_transaction() {
    let mut slate = Slate::blank(2, false);
    slate.id = 9;
    let txs = vec![TxLogEntry { tx_slate_id: Some(9), confirmed: false, signed: false }];
    // Our context was removed after we recorded the slate
    assert_eq!(own_commitment_check(&slate, &None, &txs), OwnCommitmentCheck::Unknown);
    let v = view(&slate, &None, &txs, OwnCommitmentStatus::AsExpected).unwrap();
    assert_eq!(v.own_commitment_status, OwnCommitmentStatus::Unknown);
    assert!(!v.is_executed);
    assert_eq!(v.agreed_net_change, None);
    // A slate we never recorded is checked without a context
    assert_eq!(own_commitment_check(&slate, &None, &vec![]), OwnCommitmentCheck::WithoutContext);
    // A slate without a transaction cannot be checked
    slate.tx = None;
    let context = Some(context_with_net_change(None));
    assert_eq!(own_commitment_check(&slate, &context, &vec![]), OwnCommitmentCheck::Unknown);
    let v = view(&slate, &context, &vec![], OwnCommitmentStatus::AsExpected).unwrap();
    assert_eq!(v.own_commitment_status, OwnCommitmentStatus::Unknown);
    assert_eq!(v.suggested_net_change, Some(0));
}
