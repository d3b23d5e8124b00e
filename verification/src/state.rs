//! The two persisted records of a wallet: its configuration and its
//! proposals, together with their mathematical views and invariants.

use vstd::prelude::*;

verus! {

/// Upper bound on the number of signers a wallet may hold.  The bound is
/// a storage-sizing constant: every record is allocated with room for
/// this many identities.
pub const MAX_SIGNERS: usize = 10;

/// An identity (a signer, a destination account, an asset).  Identities
/// are opaque to the engine: it only ever compares them for equality.
pub type Identity = u64;

/// The asset identifier that denotes the wallet's native currency.
pub const NATIVE_ASSET: Identity = 0;

/// Mathematical view of a wallet configuration.
#[verifier::ext_equal]
pub struct ConfigView {
    pub signers: Seq<Identity>,
    pub threshold: u8,
    pub proposal_count: u64,
    pub nonce: u8,
}

/// The single configuration record of one wallet: the authorized signer
/// set, the approval threshold, and the source of proposal identifiers.
#[derive(Clone, Debug)]
pub struct MultisigConfig {
    /// The authorized signers, unique, at most [`MAX_SIGNERS`].
    pub signers: Vec<Identity>,
    /// Minimum number of distinct current-signer approvals to execute.
    pub threshold: u8,
    /// Monotonically increasing counter; source of new proposal ids.
    pub proposal_count: u64,
    /// Opaque value fixed at creation, used by the host to derive the
    /// record's storage location; stable for the wallet's lifetime.
    pub nonce: u8,
}

impl View for MultisigConfig {
    type V = ConfigView;

    open spec fn view(&self) -> ConfigView {
        ConfigView {
            signers: self.signers@,
            threshold: self.threshold,
            proposal_count: self.proposal_count,
            nonce: self.nonce,
        }
    }
}

impl ConfigView {
    /// The configuration invariant: signers are unique, within capacity,
    /// and the threshold is reachable (`1 <= threshold <= |signers|`).
    pub open spec fn inv(self) -> bool {
        &&& self.signers.no_duplicates()
        &&& self.signers.len() <= MAX_SIGNERS
        &&& 1 <= self.threshold
        &&& self.threshold as int <= self.signers.len()
    }

    /// Whether `id` is currently an authorized signer of this wallet.
    pub open spec fn is_signer(self, id: Identity) -> bool {
        self.signers.contains(id)
    }
}

impl MultisigConfig {
    /// The configuration invariant, stated of the record.
    pub open spec fn inv(self) -> bool {
        self@.inv()
    }
}

/// Mathematical view of a proposal record.
#[verifier::ext_equal]
pub struct ProposalView {
    pub id: u64,
    pub creator: Identity,
    pub destination: Identity,
    pub amount: u64,
    pub token_mint: Identity,
    pub approvals: Seq<Identity>,
    pub executed: bool,
    pub cancelled: bool,
    pub expiration_time: i64,
    pub multisig: Identity,
    pub nonce: u8,
}

/// One spend proposal: a recorded request to move `amount` of an asset
/// to `destination`, pending approval.  Never deleted; once `executed`
/// or `cancelled` it is a frozen audit record.
#[derive(Clone, Debug)]
pub struct Proposal {
    /// Unique within the wallet, assigned from the proposal counter.
    pub id: u64,
    /// The signer that created the proposal.
    pub creator: Identity,
    /// Where the funds go on execution.
    pub destination: Identity,
    /// How much moves on execution; always positive.
    pub amount: u64,
    /// The asset to move; [`NATIVE_ASSET`] denotes the native currency.
    pub token_mint: Identity,
    /// The signers that have approved so far, unique, in approval order.
    /// Order carries no weight: only membership and count matter.
    pub approvals: Vec<Identity>,
    /// One-way latch: set exactly when the transfer has happened.
    pub executed: bool,
    /// One-way latch: set when the creator withdrew the proposal.
    pub cancelled: bool,
    /// Absolute deadline; 0 means the proposal never expires.
    pub expiration_time: i64,
    /// The wallet this proposal belongs to.
    pub multisig: Identity,
    /// Opaque storage-location value, fixed at creation.
    pub nonce: u8,
}

impl View for Proposal {
    type V = ProposalView;

    open spec fn view(&self) -> ProposalView {
        ProposalView {
            id: self.id,
            creator: self.creator,
            destination: self.destination,
            amount: self.amount,
            token_mint: self.token_mint,
            approvals: self.approvals@,
            executed: self.executed,
            cancelled: self.cancelled,
            expiration_time: self.expiration_time,
            multisig: self.multisig,
            nonce: self.nonce,
        }
    }
}

impl ProposalView {
    /// The proposal invariant: approvals are unique, the amount is
    /// positive, and the two terminal latches are mutually exclusive.
    pub open spec fn inv(self) -> bool {
        &&& self.approvals.no_duplicates()
        &&& self.amount > 0
        &&& !(self.executed && self.cancelled)
    }

    /// A proposal is expired exactly when it carries a non-zero deadline
    /// that lies strictly in the past.
    pub open spec fn is_expired(self, now: i64) -> bool {
        self.expiration_time != 0 && now > self.expiration_time
    }
}

impl Proposal {
    /// The proposal invariant, stated of the record.
    pub open spec fn inv(self) -> bool {
        self@.inv()
    }
}

} // verus!
