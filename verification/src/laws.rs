//! The laws of the engine, proved of the model in [`crate::model`].
//! Each executable operation's contract states that its result and its
//! state change equal the model's, so a law of the model is a law of
//! the running code.

use vstd::prelude::*;

use crate::model::approval_count;
use crate::model::approve_error;
use crate::model::approvals_after;
use crate::model::approved_proposal;
use crate::model::cancel_error;
use crate::model::config_validation_error;
use crate::model::created_config;
use crate::model::execute_error;
use crate::model::quorum_reached;
use crate::model::update_error;
use crate::model::updated_config;
use crate::state::ConfigView;
use crate::state::Identity;
use crate::state::ProposalView;

verus! {

/// A wallet configuration that satisfies its invariant keeps the
/// threshold reachable: at least one approval is required, and no more
/// than there are signers.
pub proof fn lemma_threshold_within_signers(config: ConfigView)
    requires
        config.inv(),
    ensures
        1 <= config.threshold,
        config.threshold as int <= config.signers.len(),
{
}

/// Wallet creation yields a configuration satisfying the invariant
/// whenever the inputs pass validation; with it, the threshold bound of
/// [`lemma_threshold_within_signers`] holds of every created wallet.
pub proof fn lemma_created_config_inv(signers: Seq<Identity>, threshold: u8, nonce: u8)
    requires
        signers.no_duplicates(),
        config_validation_error(signers, threshold) is None,
    ensures
        created_config(signers, threshold, nonce).inv(),
{
}

/// A configuration update that is accepted yields a configuration
/// satisfying the invariant, whatever the previous configuration was.
pub proof fn lemma_updated_config_inv(
    config: ConfigView,
    new_signers: Seq<Identity>,
    new_threshold: u8,
    all_current_signers_approved: bool,
)
    requires
        new_signers.no_duplicates(),
        update_error(new_signers, new_threshold, all_current_signers_approved) is None,
    ensures
        updated_config(config, new_signers, new_threshold).inv(),
{
}

/// The two terminal latches are mutually exclusive: no proposal
/// satisfying its invariant is both executed and cancelled.
pub proof fn lemma_latches_exclusive(proposal: ProposalView)
    requires
        proposal.inv(),
    ensures
        !(proposal.executed && proposal.cancelled),
{
}

/// Approval is idempotent: after a signer's approval is accepted, a
/// repeated approval by the same signer is accepted again and leaves
/// the proposal exactly as it was.
pub proof fn lemma_approve_idempotent(
    config: ConfigView,
    proposal: ProposalView,
    signer: Identity,
    now: i64,
)
    requires
        approve_error(config, proposal, signer, now) is None,
    ensures
        approve_error(config, approved_proposal(proposal, signer), signer, now) is None,
        approved_proposal(approved_proposal(proposal, signer), signer) == approved_proposal(
            proposal,
            signer,
        ),
{
    let once = approvals_after(proposal.approvals, signer);
    if !proposal.approvals.contains(signer) {
        assert(once[proposal.approvals.len() as int] == signer);
    }
    assert(once.contains(signer));
}

/// A proposal short of quorum cannot be executed: when fewer current
/// signers have approved than the threshold asks, execution is
/// rejected, whatever else the proposal's state is.
pub proof fn lemma_no_quorum_no_execution(config: ConfigView, proposal: ProposalView, now: i64)
    requires
        !quorum_reached(config, proposal),
    ensures
        execute_error(config, proposal, now) is Some,
{
}

/// The executed latch is final: once a proposal is executed, every
/// subsequent approval, execution and cancellation is rejected, for
/// every acting identity and at every time.
pub proof fn lemma_executed_is_final(
    config: ConfigView,
    proposal: ProposalView,
    signer: Identity,
    caller: Identity,
    now: i64,
)
    requires
        proposal.executed,
    ensures
        approve_error(config, proposal, signer, now) is Some,
        execute_error(config, proposal, now) is Some,
        cancel_error(proposal, caller) is Some,
{
}

/// The cancelled latch is final: once a proposal is cancelled, every
/// subsequent approval and execution is rejected, for every acting
/// identity and at every time.
pub proof fn lemma_cancelled_is_final(
    config: ConfigView,
    proposal: ProposalView,
    signer: Identity,
    now: i64,
)
    requires
        proposal.cancelled,
    ensures
        approve_error(config, proposal, signer, now) is Some,
        execute_error(config, proposal, now) is Some,
{
}

/// An expired proposal is dead: a proposal whose non-zero expiration
/// time lies in the past can be neither approved nor executed, whatever
/// its approval count.
pub proof fn lemma_expired_is_dead(
    config: ConfigView,
    proposal: ProposalView,
    signer: Identity,
    now: i64,
)
    requires
        proposal.is_expired(now),
    ensures
        approve_error(config, proposal, signer, now) is Some,
        execute_error(config, proposal, now) is Some,
{
}

/// The quorum count is truly the size of the intersection of the
/// recorded approvals with the current signer set: counting the
/// approval entries that are current signers equals the cardinality of
/// the set intersection, for any approval set free of duplicates.
pub proof fn lemma_approval_count_is_intersection(approvals: Seq<Identity>, signers: Seq<Identity>)
    requires
        approvals.no_duplicates(),
    ensures
        approval_count(approvals, signers) == approvals.to_set().intersect(
            signers.to_set(),
        ).len(),
    decreases approvals.len(),
{
    broadcast use vstd::set::group_set_axioms;

    if approvals.len() == 0 {
        assert(approvals.to_set().intersect(signers.to_set()) =~= Set::empty());
    } else {
        let rest = approvals.drop_last();
        let last = approvals.last();
        assert(rest.no_duplicates());
        assert(!rest.contains(last)) by {
            if rest.contains(last) {
                let k = choose|k: int| 0 <= k < rest.len() && rest[k] == last;
                assert(approvals[k] == approvals[approvals.len() - 1]);
            }
        }
        lemma_approval_count_is_intersection(rest, signers);
        rest.lemma_push_to_set_commute(last);
        assert(approvals =~= rest.push(last));
        vstd::seq_lib::seq_to_set_is_finite(rest);
        let rest_common = rest.to_set().intersect(signers.to_set());
        if signers.contains(last) {
            assert(signers.to_set().contains(last));
            assert(approvals.to_set().intersect(signers.to_set()) =~= rest_common.insert(last));
            assert(!rest_common.contains(last));
        } else {
            assert(!signers.to_set().contains(last));
            assert(approvals.to_set().intersect(signers.to_set()) =~= rest_common);
        }
    }
}

} // verus!
