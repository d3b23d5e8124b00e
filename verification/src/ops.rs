//! The five operation handlers of the wallet engine, each proved equal
//! to the model in [`crate::model`]: the exact error on rejection, the
//! exact new state on success, and no state change on any error.

use vstd::prelude::*;

use crate::error::MultisigWalletError;
use crate::model::approval_count;
use crate::model::approve_error;
use crate::model::approved_proposal;
use crate::model::cancel_error;
use crate::model::cancelled_proposal;
use crate::model::config_after_create;
use crate::model::config_validation_error;
use crate::model::create_proposal_error;
use crate::model::created_config;
use crate::model::created_proposal;
use crate::model::execute_error;
use crate::model::executed_proposal;
use crate::model::quorum_reached;
use crate::model::update_error;
use crate::model::updated_config;
use crate::state::Identity;
use crate::state::MultisigConfig;
use crate::state::Proposal;
use crate::state::MAX_SIGNERS;

verus! {

/// Whether `id` occurs in `items`.
pub fn contains_identity(items: &Vec<Identity>, id: Identity) -> (r: bool)
    ensures
        r == items@.contains(id),
{
    let mut i: usize = 0;
    while i < items.len()
        invariant
            i <= items@.len(),
            forall|k: int| 0 <= k < i ==> items@[k] != id,
        decreases items@.len() - i,
    {
        if items[i] == id {
            assert(items@[i as int] == id);
            return true;
        }
        i += 1;
    }
    false
}

/// Whether `items` holds no identity twice.  Operations that install a
/// signer list require uniqueness of their caller; this check lets the
/// caller establish it.
pub fn identities_unique(items: &Vec<Identity>) -> (r: bool)
    ensures
        r == items@.no_duplicates(),
{
    let mut i: usize = 0;
    while i < items.len()
        invariant
            i <= items@.len(),
            forall|p: int, q: int| 0 <= p < q < i ==> items@[p] != items@[q],
        decreases items@.len() - i,
    {
        let mut j: usize = 0;
        while j < i
            invariant
                j <= i < items@.len(),
                forall|p: int| 0 <= p < j ==> items@[p] != items@[i as int],
            decreases i - j,
        {
            if items[j] == items[i] {
                assert(items@[j as int] == items@[i as int]);
                assert(!items@.no_duplicates());
                return false;
            }
            j += 1;
        }
        i += 1;
    }
    assert(items@.no_duplicates()) by {
        assert forall|p: int, q: int|
            0 <= p < items@.len() && 0 <= q < items@.len() && p != q implies items@[p]
            != items@[q] by {
            if p < q {
                assert(items@[p] != items@[q]);
            } else {
                assert(items@[q] != items@[p]);
            }
        }
    }
    true
}

/// How many entries of `approvals` are present in `signers`.
pub fn count_current_approvals(approvals: &Vec<Identity>, signers: &Vec<Identity>) -> (r: usize)
    ensures
        r as nat == approval_count(approvals@, signers@),
        r <= approvals@.len(),
{
    let mut count: usize = 0;
    let mut i: usize = 0;
    while i < approvals.len()
        invariant
            i <= approvals@.len(),
            count <= i,
            count as nat == approval_count(approvals@.take(i as int), signers@),
        decreases approvals@.len() - i,
    {
        let hit = contains_identity(signers, approvals[i]);
        proof {
            assert(approvals@.take(i as int + 1).drop_last() =~= approvals@.take(i as int));
            assert(approvals@.take(i as int + 1).last() == approvals@[i as int]);
        }
        if hit {
            count += 1;
        }
        i += 1;
    }
    proof {
        assert(approvals@.take(approvals@.len() as int) =~= approvals@);
    }
    count
}

/// Initialize a wallet: install the signer set and threshold, start the
/// proposal counter at zero.  The host creates the record at the
/// wallet's canonical location exactly once; `nonce` is the opaque
/// location-derivation value it fixes for the wallet's lifetime.
pub fn create_multisig(signers: Vec<Identity>, threshold: u8, nonce: u8) -> (r: Result<
    MultisigConfig,
    MultisigWalletError,
>)
    requires
        signers@.no_duplicates(),
    ensures
        match config_validation_error(signers@, threshold) {
            Some(e) => r == Err::<MultisigConfig, MultisigWalletError>(e),
            None => (r matches Ok(c) && c@ == created_config(signers@, threshold, nonce)
                && c.inv()),
        },
{
    if signers.len() > MAX_SIGNERS {
        return Err(MultisigWalletError::MaxSignersExceeded);
    }
    if threshold == 0 || threshold as usize > signers.len() {
        return Err(MultisigWalletError::InvalidThreshold);
    }
    Ok(MultisigConfig { signers, threshold, proposal_count: 0, nonce })
}

/// Replace the wallet's signer set and threshold in one atomic step.
/// Requires the attestation that every current signer approved the
/// change; validation of the new pair follows the creation-time rules.
/// Existing proposals are untouched: stale approvals are not purged,
/// they merely stop counting at execution time.
pub fn update_multisig(
    config: &mut MultisigConfig,
    new_signers: Vec<Identity>,
    new_threshold: u8,
    all_current_signers_approved: bool,
) -> (r: Result<(), MultisigWalletError>)
    requires
        old(config).inv(),
        new_signers@.no_duplicates(),
    ensures
        match update_error(new_signers@, new_threshold, all_current_signers_approved) {
            Some(e) => r == Err::<(), MultisigWalletError>(e) && *final(config) == *old(config),
            None => (r == Ok::<(), MultisigWalletError>(()) && final(config)@ == updated_config(
                old(config)@,
                new_signers@,
                new_threshold,
            ) && final(config).inv()),
        },
{
    if !all_current_signers_approved {
        return Err(MultisigWalletError::NotAllSignersApproved);
    }
    if new_signers.len() > MAX_SIGNERS {
        return Err(MultisigWalletError::MaxSignersExceeded);
    }
    if new_threshold == 0 || new_threshold as usize > new_signers.len() {
        return Err(MultisigWalletError::InvalidThreshold);
    }
    config.signers = new_signers;
    config.threshold = new_threshold;
    Ok(())
}

/// Record a new spend proposal.  Only a current signer may create one;
/// the proposal takes the wallet's counter as its id and the counter
/// advances, so ids are never reused, not even across cancelled or
/// expired proposals.  The approval set starts empty: creation does not
/// count as an approval by the creator.  `multisig` and `nonce` are the
/// host-derived location values stored on the record.
pub fn create_proposal(
    config: &mut MultisigConfig,
    creator: Identity,
    destination: Identity,
    amount: u64,
    token_mint: Identity,
    expiration_time: i64,
    multisig: Identity,
    nonce: u8,
) -> (r: Result<Proposal, MultisigWalletError>)
    requires
        old(config).inv(),
        amount > 0,
        old(config).proposal_count < u64::MAX,
    ensures
        match create_proposal_error(old(config)@, creator) {
            Some(e) => r == Err::<Proposal, MultisigWalletError>(e) && *final(config) == *old(config),
            None => (r matches Ok(p) && p@ == created_proposal(
                old(config)@,
                creator,
                destination,
                amount,
                token_mint,
                expiration_time,
                multisig,
                nonce,
            ) && final(config)@ == config_after_create(old(config)@) && p.inv() && final(config).inv()),
        },
{
    if !contains_identity(&config.signers, creator) {
        return Err(MultisigWalletError::NotASigner);
    }
    let proposal = Proposal {
        id: config.proposal_count,
        creator,
        destination,
        amount,
        token_mint,
        approvals: Vec::new(),
        executed: false,
        cancelled: false,
        expiration_time,
        multisig,
        nonce,
    };
    config.proposal_count = config.proposal_count + 1;
    Ok(proposal)
}

/// Record one signer's approval of a proposal.  Membership is checked
/// against the current signer set, then the two terminal latches, then
/// expiration.  Re-approval by a signer already recorded is accepted
/// and changes nothing.  Reaching the threshold does not auto-execute.
pub fn approve_proposal(
    config: &MultisigConfig,
    proposal: &mut Proposal,
    signer: Identity,
    now: i64,
) -> (r: Result<(), MultisigWalletError>)
    requires
        config.inv(),
        old(proposal).inv(),
    ensures
        match approve_error(config@, old(proposal)@, signer, now) {
            Some(e) => r == Err::<(), MultisigWalletError>(e) && *final(proposal) == *old(proposal),
            None => (r == Ok::<(), MultisigWalletError>(()) && final(proposal)@
                == approved_proposal(old(proposal)@, signer) && final(proposal).inv()),
        },
{
    if !contains_identity(&config.signers, signer) {
        return Err(MultisigWalletError::NotASigner);
    }
    if proposal.executed {
        return Err(MultisigWalletError::ProposalAlreadyExecuted);
    }
    if proposal.cancelled {
        return Err(MultisigWalletError::ProposalCancelled);
    }
    if proposal.expiration_time != 0 && now > proposal.expiration_time {
        return Err(MultisigWalletError::ProposalExpired);
    }
    if !contains_identity(&proposal.approvals, signer) {
        proposal.approvals.push(signer);
    }
    Ok(())
}

/// Authorize and latch the execution of a proposal.  The latches and
/// expiration are checked, then the recorded approvals are re-validated
/// against the *current* signer set: a signer removed by governance
/// after approving no longer counts.  On success the executed latch is
/// set and the proposal is frozen; the host performs the transfer in
/// the same atomic unit, committing this state change exactly when the
/// transfer happens.
pub fn execute_proposal(config: &MultisigConfig, proposal: &mut Proposal, now: i64) -> (r: Result<
    (),
    MultisigWalletError,
>)
    requires
        config.inv(),
        old(proposal).inv(),
    ensures
        match execute_error(config@, old(proposal)@, now) {
            Some(e) => r == Err::<(), MultisigWalletError>(e) && *final(proposal) == *old(proposal),
            None => (r == Ok::<(), MultisigWalletError>(()) && final(proposal)@
                == executed_proposal(old(proposal)@) && final(proposal).inv()),
        },
        r is Ok ==> quorum_reached(config@, old(proposal)@),
{
    if proposal.executed {
        return Err(MultisigWalletError::ProposalAlreadyExecuted);
    }
    if proposal.cancelled {
        return Err(MultisigWalletError::ProposalCancelled);
    }
    if proposal.expiration_time != 0 && now > proposal.expiration_time {
        return Err(MultisigWalletError::ProposalExpired);
    }
    let valid = count_current_approvals(&proposal.approvals, &config.signers);
    if valid < config.threshold as usize {
        return Err(MultisigWalletError::InsufficientApprovals);
    }
    proposal.executed = true;
    Ok(())
}

/// Withdraw a proposal.  Only the original creator may cancel, and only
/// while the proposal is neither executed nor cancelled.  Cancellation
/// is final: the record is frozen as an audit entry.
pub fn cancel_proposal(proposal: &mut Proposal, caller: Identity) -> (r: Result<
    (),
    MultisigWalletError,
>)
    requires
        old(proposal).inv(),
    ensures
        match cancel_error(old(proposal)@, caller) {
            Some(e) => r == Err::<(), MultisigWalletError>(e) && *final(proposal) == *old(proposal),
            None => (r == Ok::<(), MultisigWalletError>(()) && final(proposal)@
                == cancelled_proposal(old(proposal)@) && final(proposal).inv()),
        },
{
    if caller != proposal.creator {
        return Err(MultisigWalletError::NotASigner);
    }
    if proposal.executed {
        return Err(MultisigWalletError::ProposalAlreadyExecuted);
    }
    if proposal.cancelled {
        return Err(MultisigWalletError::ProposalCancelled);
    }
    proposal.cancelled = true;
    Ok(())
}

} // verus!
