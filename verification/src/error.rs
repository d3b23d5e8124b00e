//! The error taxonomy of the wallet engine.

use vstd::prelude::*;

verus! {

/// Every way a request can be rejected.  Each operation surfaces the
/// specific kind, never a generic failure, and a rejected request leaves
/// all state unchanged.
#[derive(Clone, Copy, Debug, PartialEq, Eq, Structural)]
pub enum MultisigWalletError {
    /// The acting identity is not authorized for this wallet.
    NotASigner,
    /// The approval threshold has not been met.
    ThresholdNotMet,
    /// The proposal's expiration time lies in the past.
    ProposalExpired,
    /// The proposal has already been executed.
    ProposalAlreadyExecuted,
    /// The proposal has been cancelled.
    ProposalCancelled,
    /// Not enough current-signer approvals to execute the proposal.
    InsufficientApprovals,
    /// A configuration change requires the consent of every current signer.
    NotAllSignersApproved,
    /// The threshold must be at least 1 and at most the number of signers.
    InvalidThreshold,
    /// The signer list exceeds the wallet's capacity.
    MaxSignersExceeded,
}

} // verus!
