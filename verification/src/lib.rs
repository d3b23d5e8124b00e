//! Threshold-approval engine for a shared-custody wallet.
//!
//! A wallet is a set of authorized signers together with an approval
//! threshold.  Spend proposals are created by signers, gather approvals,
//! and are released for execution only once a quorum of current signers
//! has approved.  Every operation is a verified state transition: its
//! contract pins the exact result, the exact error, and the exact state
//! change for every input.

pub mod error;
pub mod laws;
pub mod model;
pub mod ops;
pub mod state;
