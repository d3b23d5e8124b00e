//! The mathematical model of the engine: for every operation, a spec
//! function giving the exact error it rejects with (if any) and a spec
//! function giving the exact state it produces.  The executable
//! operations in [`crate::ops`] are proved equal to this model, and the
//! engine's laws in [`crate::laws`] are proved of it.

use vstd::prelude::*;

use crate::error::MultisigWalletError;
use crate::state::ConfigView;
use crate::state::Identity;
use crate::state::ProposalView;
use crate::state::MAX_SIGNERS;

verus! {

/// Validation shared by wallet creation and configuration update: the
/// capacity check, then the threshold range check.  `None` means the
/// pair is acceptable.
pub open spec fn config_validation_error(
    signers: Seq<Identity>,
    threshold: u8,
) -> Option<MultisigWalletError> {
    if signers.len() > MAX_SIGNERS {
        Some(MultisigWalletError::MaxSignersExceeded)
    } else if threshold == 0 || threshold as int > signers.len() {
        Some(MultisigWalletError::InvalidThreshold)
    } else {
        None
    }
}

/// The configuration produced by a successful wallet creation.
pub open spec fn created_config(
    signers: Seq<Identity>,
    threshold: u8,
    nonce: u8,
) -> ConfigView {
    ConfigView { signers, threshold, proposal_count: 0, nonce }
}

/// The error with which a configuration update is rejected: unanimity
/// first, then the creation-time validation rules.
pub open spec fn update_error(
    new_signers: Seq<Identity>,
    new_threshold: u8,
    all_current_signers_approved: bool,
) -> Option<MultisigWalletError> {
    if !all_current_signers_approved {
        Some(MultisigWalletError::NotAllSignersApproved)
    } else {
        config_validation_error(new_signers, new_threshold)
    }
}

/// The configuration produced by a successful update: signer set and
/// threshold replaced atomically, counter and nonce untouched.
pub open spec fn updated_config(
    config: ConfigView,
    new_signers: Seq<Identity>,
    new_threshold: u8,
) -> ConfigView {
    ConfigView { signers: new_signers, threshold: new_threshold, ..config }
}

/// The error with which proposal creation is rejected: only a current
/// signer may create a proposal.
pub open spec fn create_proposal_error(
    config: ConfigView,
    creator: Identity,
) -> Option<MultisigWalletError> {
    if !config.is_signer(creator) {
        Some(MultisigWalletError::NotASigner)
    } else {
        None
    }
}

/// The proposal produced by a successful creation: its id is the
/// wallet's counter, its approval set starts empty, both latches start
/// clear.  Creation does not count as an approval by the creator.
pub open spec fn created_proposal(
    config: ConfigView,
    creator: Identity,
    destination: Identity,
    amount: u64,
    token_mint: Identity,
    expiration_time: i64,
    multisig: Identity,
    nonce: u8,
) -> ProposalView {
    ProposalView {
        id: config.proposal_count,
        creator,
        destination,
        amount,
        token_mint,
        approvals: Seq::empty(),
        executed: false,
        cancelled: false,
        expiration_time,
        multisig,
        nonce,
    }
}

/// The configuration after a successful proposal creation: the counter
/// advances by one, nothing else moves.
pub open spec fn config_after_create(config: ConfigView) -> ConfigView {
    ConfigView { proposal_count: (config.proposal_count + 1) as u64, ..config }
}

/// The error with which an approval is rejected, checked in this order:
/// signer membership, the executed latch, the cancelled latch,
/// expiration.  `None` means the approval is accepted.
pub open spec fn approve_error(
    config: ConfigView,
    proposal: ProposalView,
    signer: Identity,
    now: i64,
) -> Option<MultisigWalletError> {
    if !config.is_signer(signer) {
        Some(MultisigWalletError::NotASigner)
    } else if proposal.executed {
        Some(MultisigWalletError::ProposalAlreadyExecuted)
    } else if proposal.cancelled {
        Some(MultisigWalletError::ProposalCancelled)
    } else if proposal.is_expired(now) {
        Some(MultisigWalletError::ProposalExpired)
    } else {
        None
    }
}

/// An approval set after `signer` approves: unchanged if the signer is
/// already recorded, otherwise extended by that one identity.
pub open spec fn approvals_after(
    approvals: Seq<Identity>,
    signer: Identity,
) -> Seq<Identity> {
    if approvals.contains(signer) {
        approvals
    } else {
        approvals.push(signer)
    }
}

/// The proposal after a successful approval: only the approval set
/// moves, and only as [`approvals_after`] says.
pub open spec fn approved_proposal(
    proposal: ProposalView,
    signer: Identity,
) -> ProposalView {
    ProposalView { approvals: approvals_after(proposal.approvals, signer), ..proposal }
}

/// How many entries of `approvals` are current signers.  Since an
/// approval set never holds duplicates, this is the size of the
/// intersection of the approval set with the current signer set.
pub open spec fn approval_count(
    approvals: Seq<Identity>,
    signers: Seq<Identity>,
) -> nat
    decreases approvals.len(),
{
    if approvals.len() == 0 {
        0
    } else {
        approval_count(approvals.drop_last(), signers)
            + if signers.contains(approvals.last()) { 1nat } else { 0nat }
    }
}

/// Whether the proposal's recorded approvals, re-validated against the
/// current signer set, meet the wallet's threshold.
pub open spec fn quorum_reached(config: ConfigView, proposal: ProposalView) -> bool {
    approval_count(proposal.approvals, config.signers) >= config.threshold
}

/// The error with which execution is rejected, checked in this order:
/// the executed latch, the cancelled latch, expiration, quorum.  `None`
/// means the transfer is authorized.
pub open spec fn execute_error(
    config: ConfigView,
    proposal: ProposalView,
    now: i64,
) -> Option<MultisigWalletError> {
    if proposal.executed {
        Some(MultisigWalletError::ProposalAlreadyExecuted)
    } else if proposal.cancelled {
        Some(MultisigWalletError::ProposalCancelled)
    } else if proposal.is_expired(now) {
        Some(MultisigWalletError::ProposalExpired)
    } else if !quorum_reached(config, proposal) {
        Some(MultisigWalletError::InsufficientApprovals)
    } else {
        None
    }
}

/// The proposal after a successful execution: the executed latch is
/// set, every other field is frozen as it was.
pub open spec fn executed_proposal(proposal: ProposalView) -> ProposalView {
    ProposalView { executed: true, ..proposal }
}

/// The error with which a cancellation is rejected, checked in this
/// order: only the original creator may cancel, then the two latches.
pub open spec fn cancel_error(
    proposal: ProposalView,
    caller: Identity,
) -> Option<MultisigWalletError> {
    if caller != proposal.creator {
        Some(MultisigWalletError::NotASigner)
    } else if proposal.executed {
        Some(MultisigWalletError::ProposalAlreadyExecuted)
    } else if proposal.cancelled {
        Some(MultisigWalletError::ProposalCancelled)
    } else {
        None
    }
}

/// The proposal after a successful cancellation: the cancelled latch is
/// set, every other field is frozen as it was.
pub open spec fn cancelled_proposal(proposal: ProposalView) -> ProposalView {
    ProposalView { cancelled: true, ..proposal }
}

} // verus!
