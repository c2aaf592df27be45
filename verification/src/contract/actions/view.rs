//! The contract view: what a slate we received says, read against our own
//! records of it.

use vstd::prelude::*;

use crate::contract::types::{
    is_signed_tx, spec_is_signed_tx, Context, ContractView, OwnCommitmentStatus, SetupArgs, TxLogEntry,
};
use crate::error::Error;
use crate::slate::{ParticipantData, Slate, SlateState};

verus! {

/// The balance change a slate suggests: the amount, received in a fresh
/// standard slate and paid in a fresh invoice; none in other states.
pub open spec fn spec_suggested_net_change(state: SlateState, amount: u64) -> Result<Option<i64>, Error> {
    match state {
        SlateState::Standard1 => if amount <= i64::MAX {
            Ok(Some(amount as i64))
        } else {
            Err(Error::AmountExceedsI64(amount))
        },
        SlateState::Invoice1 => if amount <= i64::MAX {
            Ok(Some((-(amount as int)) as i64))
        } else {
            Err(Error::AmountExceedsI64(amount))
        },
        _ => Ok(None),
    }
}

/// The balance change a slate suggests from its state and amount; fails when
/// the amount does not fit in an `i64`.
pub fn suggested_net_change(state: &SlateState, amount: u64) -> (r: Result<Option<i64>, Error>)
    ensures
        r == spec_suggested_net_change(*state, amount),
{
    let sign: i64 = match state {
        SlateState::Standard1 => 1,
        SlateState::Invoice1 => -1,
        _ => return Ok(None),
    };
    if amount > 0x7fff_ffff_ffff_ffff {
        return Err(Error::AmountExceedsI64(amount));
    }
    let amount = amount as i64;
    if sign > 0 {
        Ok(Some(amount))
    } else {
        Ok(Some(-amount))
    }
}

/// Why a slate cannot be viewed, if it cannot: its state is `Unknown`, or it
/// declares other than one or two participants.
pub open spec fn view_error(slate: Slate) -> Option<Error> {
    if slate.state == SlateState::Unknown {
        Some(Error::UnknownSlateState)
    } else if slate.num_participants < 1 || slate.num_participants > 2 {
        Some(Error::UnsupportedNumParticipants(slate.num_participants))
    } else {
        None
    }
}

/// Rejects a slate we cannot interpret: one in the `Unknown` state, or one
/// that declares other than one or two participants.
pub fn check_viewable(slate: &Slate) -> (r: Result<(), Error>)
    ensures
        view_error(*slate) matches Some(e) ==> r == Err::<(), Error>(e),
        view_error(*slate) is None ==> r is Ok,
{
    if slate.state == SlateState::Unknown {
        return Err(Error::UnknownSlateState);
    }
    // Mirror the contract setup bound so a tampered slate can't surface a bogus count.
    if slate.num_participants < 1 || slate.num_participants > 2 {
        return Err(Error::UnsupportedNumParticipants(slate.num_participants));
    }
    Ok(())
}

/// How the view can tell whether the slate carries commitments of ours that we
/// did not add.
#[derive(Debug, Clone, Copy, PartialEq, Eq, Structural)]
pub enum OwnCommitmentCheck {
    /// It cannot: the slate has no transaction, or our context has been
    /// removed after we recorded the slate.
    Unknown,
    /// By the commitments our context records as added, once we have signed.
    WithContext,
    /// Without a context: we have not signed, so we added nothing.
    WithoutContext,
}

/// One of our transaction log entries records our signature on the slate.
pub open spec fn spec_has_signed(txs: Seq<TxLogEntry>, slate_id: u128) -> bool {
    exists|i: int| 0 <= i < txs.len() && spec_is_signed_tx(txs[i], slate_id)
}

/// One of our transaction log entries for the slate has confirmed.
pub open spec fn spec_is_executed(txs: Seq<TxLogEntry>) -> bool {
    exists|i: int| 0 <= i < txs.len() && txs[i].confirmed
}

/// How to check the slate for commitments of ours, given our context for the
/// slate (if it still exists) and our transaction log entries for it.
pub open spec fn spec_own_commitment_check(slate: Slate, has_context: bool, txs: Seq<TxLogEntry>) -> OwnCommitmentCheck {
    if slate.tx is None || (!has_context && txs.len() != 0) {
        OwnCommitmentCheck::Unknown
    } else if spec_has_signed(txs, slate.id) {
        OwnCommitmentCheck::WithContext
    } else {
        OwnCommitmentCheck::WithoutContext
    }
}

/// Whether one of the entries records our signature on slate `slate_id`.
fn has_signed(txs: &Vec<TxLogEntry>, slate_id: u128) -> (r: bool)
    ensures
        r == spec_has_signed(txs@, slate_id),
{
    let mut i: usize = 0;
    while i < txs.len()
        invariant
            i <= txs@.len(),
            forall|j: int| 0 <= j < i ==> !spec_is_signed_tx(txs@[j], slate_id),
        decreases txs@.len() - i,
    {
        if is_signed_tx(&txs[i], slate_id) {
            return true;
        }
        i = i + 1;
    }
    false
}

/// Whether one of the entries has confirmed.
fn is_executed(txs: &Vec<TxLogEntry>) -> (r: bool)
    ensures
        r == spec_is_executed(txs@),
{
    let mut i: usize = 0;
    while i < txs.len()
        invariant
            i <= txs@.len(),
            forall|j: int| 0 <= j < i ==> !txs@[j].confirmed,
        decreases txs@.len() - i,
    {
        if txs[i].confirmed {
            return true;
        }
        i = i + 1;
    }
    false
}

/// How to check the slate for commitments of ours. Once we have signed, the
/// context identifies the commitments we added; if it has already been
/// removed, the slate no longer carries enough information to do that.
pub fn own_commitment_check(slate: &Slate, context: &Option<Context>, txs: &Vec<TxLogEntry>) -> (r: OwnCommitmentCheck)
    ensures
        r == spec_own_commitment_check(*slate, context is Some, txs@),
{
    if slate.tx.is_none() || (context.is_none() && txs.len() != 0) {
        OwnCommitmentCheck::Unknown
    } else if has_signed(txs, slate.id) {
        OwnCommitmentCheck::WithContext
    } else {
        OwnCommitmentCheck::WithoutContext
    }
}

/// The number of participants that have signed.
pub open spec fn count_signed(pd: Seq<ParticipantData>) -> nat
    decreases pd.len(),
{
    if pd.len() == 0 {
        0
    } else {
        count_signed(pd.drop_last()) + if pd.last().part_sig is Some { 1nat } else { 0nat }
    }
}

/// The signature count of the view is the number of participants holding a
/// partial signature: the length of the participants kept by filtering on a
/// signature. It is at most the number of participants, all of them when all
/// have signed and none when none has, and one more signature adds one.
pub proof fn lemma_count_signed_counts_signatures(pd: Seq<ParticipantData>)
    ensures
        count_signed(pd) == pd.filter(|p: ParticipantData| p.part_sig is Some).len(),
        count_signed(pd) <= pd.len(),
        (forall|i: int| 0 <= i < pd.len() ==> (#[trigger] pd[i]).part_sig is Some) ==> count_signed(pd) == pd.len(),
        (forall|i: int| 0 <= i < pd.len() ==> (#[trigger] pd[i]).part_sig is None) ==> count_signed(pd) == 0,
        forall|p: ParticipantData| p.part_sig is Some ==> #[trigger] count_signed(pd.push(p)) == count_signed(pd) + 1,
        forall|p: ParticipantData| p.part_sig is None ==> #[trigger] count_signed(pd.push(p)) == count_signed(pd),
    decreases pd.len(),
{
    reveal(Seq::filter);
    if pd.len() > 0 {
        lemma_count_signed_counts_signatures(pd.drop_last());
        assert forall|i: int| 0 <= i < pd.drop_last().len() implies pd.drop_last()[i] == pd[i] by {}
    }
    assert forall|p: ParticipantData| true implies #[trigger] pd.push(p).drop_last() == pd by {
        assert(pd.push(p).drop_last() =~= pd);
    }
}

/// The suggested balance change is the amount, received in a fresh standard
/// slate and paid in a fresh invoice: the two fresh states suggest opposite
/// changes for the same amount, no other state suggests one, and an amount
/// beyond `i64` is refused in both fresh states.
pub proof fn lemma_suggested_change_direction(amount: u64)
    ensures
        amount <= i64::MAX ==> (spec_suggested_net_change(SlateState::Standard1, amount) matches Ok(Some(received))
            && received == amount),
        amount <= i64::MAX ==> (spec_suggested_net_change(SlateState::Invoice1, amount) matches Ok(Some(paid))
            && paid == -amount),
        amount > i64::MAX ==> spec_suggested_net_change(SlateState::Standard1, amount) is Err
            && spec_suggested_net_change(SlateState::Invoice1, amount) is Err,
        forall|state: SlateState| state != SlateState::Standard1 && state != SlateState::Invoice1
            ==> #[trigger] spec_suggested_net_change(state, amount) == Ok::<Option<i64>, Error>(None),
{
}

/// A contract is executed exactly when one of our log entries for it has
/// confirmed: an empty log is not executed, a confirmed entry makes it so,
/// and an unconfirmed one changes nothing.
pub proof fn lemma_executed_by_a_confirmed_entry(txs: Seq<TxLogEntry>)
    ensures
        spec_is_executed(txs) <==> txs.filter(|t: TxLogEntry| t.confirmed).len() > 0,
        !spec_is_executed(Seq::<TxLogEntry>::empty()),
        forall|t: TxLogEntry| t.confirmed ==> #[trigger] spec_is_executed(txs.push(t)),
        forall|t: TxLogEntry| !t.confirmed ==> #[trigger] spec_is_executed(txs.push(t)) == spec_is_executed(txs),
    decreases txs.len(),
{
    reveal(Seq::filter);
    if txs.len() > 0 {
        lemma_executed_by_a_confirmed_entry(txs.drop_last());
        let rest = txs.drop_last();
        if spec_is_executed(rest) {
            let i = choose|i: int| 0 <= i < rest.len() && rest[i].confirmed;
            assert(txs[i] == rest[i]);
        }
        if spec_is_executed(txs) && !txs.last().confirmed {
            let i = choose|i: int| 0 <= i < txs.len() && txs[i].confirmed;
            assert(rest[i] == txs[i]);
        }
    }
    assert forall|t: TxLogEntry| true implies #[trigger] spec_is_executed(txs.push(t)) == (spec_is_executed(txs) || t.confirmed) by {
        let u = txs.push(t);
        if spec_is_executed(txs) {
            let i = choose|i: int| 0 <= i < txs.len() && txs[i].confirmed;
            assert(u[i] == txs[i]);
        }
        if t.confirmed {
            assert(u[txs.len() as int] == t);
        }
        if spec_is_executed(u) && !t.confirmed {
            let i = choose|i: int| 0 <= i < u.len() && u[i].confirmed;
            assert(txs[i] == u[i]);
        }
    }
}

/// The check for commitments of ours cannot be made on a slate without a
/// transaction, nor once our context is gone after we recorded the slate;
/// with a context, or with nothing recorded, it is made by the context once
/// we have signed, and without one before.
pub proof fn lemma_own_commitment_check_needs_tx_and_context(slate: Slate, has_context: bool, txs: Seq<TxLogEntry>)
    ensures
        slate.tx is None ==> spec_own_commitment_check(slate, has_context, txs) == OwnCommitmentCheck::Unknown,
        !has_context && txs.len() > 0 ==> spec_own_commitment_check(slate, has_context, txs) == OwnCommitmentCheck::Unknown,
        slate.tx is Some && txs.len() == 0 ==> spec_own_commitment_check(slate, has_context, txs) == OwnCommitmentCheck::WithoutContext,
        slate.tx is Some && has_context && (exists|i: int| 0 <= i < txs.len() && txs[i].tx_slate_id == Some(slate.id) && #[trigger] txs[i].signed)
            ==> spec_own_commitment_check(slate, has_context, txs) == OwnCommitmentCheck::WithContext,
        slate.tx is Some && has_context && (forall|i: int| 0 <= i < txs.len() ==> !(#[trigger] txs[i]).signed)
            ==> spec_own_commitment_check(slate, has_context, txs) == OwnCommitmentCheck::WithoutContext,
{
    if slate.tx is Some && has_context && (exists|i: int| 0 <= i < txs.len() && txs[i].tx_slate_id == Some(slate.id) && #[trigger] txs[i].signed) {
        let i = choose|i: int| 0 <= i < txs.len() && txs[i].tx_slate_id == Some(slate.id) && #[trigger] txs[i].signed;
        assert(spec_is_signed_tx(txs[i], slate.id));
    }
}

/// The agreed balance change is the one our context recorded when we joined,
/// and there is none without a context.
pub proof fn lemma_agreed_change_comes_from_the_context(context: Context, args: SetupArgs)
    ensures
        (spec_agreed_net_change(None) is None),
        (spec_agreed_net_change(Some(Context { setup_args: None, ..context })) is None),
        (spec_agreed_net_change(Some(Context { setup_args: Some(args), ..context })) == args.net_change),
{
}

/// The balance change we agreed to when we joined, recorded in our context.
pub open spec fn spec_agreed_net_change(context: Option<Context>) -> Option<i64> {
    match context {
        Some(c) => match c.setup_args {
            Some(args) => args.net_change,
            None => None,
        },
        None => None,
    }
}

/// Views a contract slate: its participants and signatures, the suggested and
/// agreed balance changes, whether our transaction for it has confirmed, and
/// the outcome of the check for commitments of ours (`own_commitment_status`,
/// made as `own_commitment_check` says, and reported as unknown when it says
/// the check cannot be made). `context` is our context for the slate, if it
/// still exists, and `txs` our transaction log entries for the slate.
pub fn view(
    slate: &Slate,
    context: &Option<Context>,
    txs: &Vec<TxLogEntry>,
    own_commitment_status: OwnCommitmentStatus,
) -> (r: Result<ContractView, Error>)
    ensures
        view_error(*slate) matches Some(e) ==> r == Err::<ContractView, Error>(e),
        view_error(*slate) is None ==> (spec_suggested_net_change(slate.state, slate.amount) matches Err(e)
            ==> r == Err::<ContractView, Error>(e)),
        r matches Ok(v) ==> v.num_sigs == (slate.participant_data@.filter(|p: ParticipantData| p.part_sig is Some).len() as u8),
        r matches Ok(v) ==> v.num_participants == slate.num_participants,
        view_error(*slate) is None ==> (spec_suggested_net_change(slate.state, slate.amount) matches Ok(s)
            ==> r == Ok::<ContractView, Error>(ContractView {
            num_participants: slate.num_participants,
            suggested_net_change: s,
            agreed_net_change: spec_agreed_net_change(*context),
            num_sigs: count_signed(slate.participant_data@) as u8,
            is_executed: spec_is_executed(txs@),
            own_commitment_status: if spec_own_commitment_check(*slate, context is Some, txs@)
                == OwnCommitmentCheck::Unknown {
                OwnCommitmentStatus::Unknown
            } else {
                own_commitment_status
            },
        })),
{
    // This should only be run on slates that we received and were signed for us.
    check_viewable(slate)?;
    let suggested_net_change = suggested_net_change(&slate.state, slate.amount)?;
    // A contract is executed once the transaction it produced has confirmed.
    let executed = is_executed(txs);
    let own_status = match own_commitment_check(slate, context, txs) {
        OwnCommitmentCheck::Unknown => OwnCommitmentStatus::Unknown,
        _ => own_commitment_status,
    };
    // Count signatures present (a participant is complete once it has a partial sig).
    let ghost pd = slate.participant_data@;
    let mut num_sigs: usize = 0;
    let mut i: usize = 0;
    while i < slate.participant_data.len()
        invariant
            pd == slate.participant_data@,
            i <= pd.len(),
            num_sigs == count_signed(pd.subrange(0, i as int)),
            num_sigs <= i,
        decreases pd.len() - i,
    {
        proof {
            assert(pd.subrange(0, i + 1).drop_last() =~= pd.subrange(0, i as int));
        }
        if slate.participant_data[i].is_complete() {
            num_sigs = num_sigs + 1;
        }
        i = i + 1;
    }
    assert(pd.subrange(0, pd.len() as int) =~= pd);
    proof {
        lemma_count_signed_counts_signatures(pd);
    }
    // If we have a local context for this slate we've agreed on a net change; surface it.
    let agreed_net_change = match context {
        Some(c) => match &c.setup_args {
            Some(args) => args.net_change,
            None => None,
        },
        None => None,
    };
    Ok(ContractView {
        num_participants: slate.num_participants,
        suggested_net_change,
        agreed_net_change,
        num_sigs: num_sigs as u8,
        is_executed: executed,
        own_commitment_status: own_status,
    })
}

} // verus!
