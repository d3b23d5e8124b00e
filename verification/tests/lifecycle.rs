//! Execution, cancellation, and the terminal latches: quorum
//! enforcement, re-validation against the current signer set, and the
//! finality of executed and cancelled proposals.

use multisig_wallet::error::MultisigWalletError;
use multisig_wallet::ops::approve_proposal;
use multisig_wallet::ops::cancel_proposal;
use multisig_wallet::ops::create_multisig;
use multisig_wallet::ops::create_proposal;
use multisig_wallet::ops::execute_proposal;
use multisig_wallet::ops::update_multisig;
use multisig_wallet::state::MultisigConfig;
use multisig_wallet::state::Proposal;
use multisig_wallet::state::NATIVE_ASSET;

const A: u64 = 1;
const B: u64 = 2;
const C: u64 = 3;
const DEST: u64 = 99;
const WALLET: u64 = 500;

fn wallet_abc() -> MultisigConfig {
    create_multisig(vec![A, B, C], 2, 7).unwrap()
}

fn proposal_by(config: &mut MultisigConfig, creator: u64, expiration: i64) -> Proposal {
    create_proposal(config, creator, DEST, 100, NATIVE_ASSET, expiration, WALLET, 9).unwrap()
}

#[test]
fn quorum_path_from_creation_to_execution() {
    let mut config = wallet_abc();
    let mut p = proposal_by(&mut config, A, 0);

    assert_eq!(approve_proposal(&config, &mut p, B, 50), Ok(()));
    assert_eq!(p.approvals, vec![B]);
    assert_eq!(
        execute_proposal(&config, &mut p, 50).unwrap_err(),
        MultisigWalletError::InsufficientApprovals
    );
    assert!(!p.executed);

    assert_eq!(approve_proposal(&config, &mut p, C, 50), Ok(()));
    assert_eq!(p.approvals, vec![B, C]);
    assert_eq!(execute_proposal(&config, &mut p, 50), Ok(()));
    assert!(p.executed);
    assert!(!p.cancelled);
    assert_eq!(p.amount, 100);
    assert_eq!(p.destination, DEST);
}

#[test]
fn execute_rejects_below_quorum() {
    let mut config = wallet_abc();
    let mut p = proposal_by(&mut config, A, 0);
    assert_eq!(
        execute_proposal(&config, &mut p, 50).unwrap_err(),
        MultisigWalletError::InsufficientApprovals
    );
    assert!(!p.executed);
}

#[test]
fn governance_change_invalidates_stale_approvals() {
    let mut config = wallet_abc();
    let mut p = proposal_by(&mut config, A, 0);
    assert_eq!(approve_proposal(&config, &mut p, B, 50), Ok(()));
    assert_eq!(approve_proposal(&config, &mut p, C, 50), Ok(()));

    assert_eq!(update_multisig(&mut config, vec![A, B], 2, true), Ok(()));

    assert_eq!(
        execute_proposal(&config, &mut p, 50).unwrap_err(),
        MultisigWalletError::InsufficientApprovals
    );
    assert!(!p.executed);
    assert_eq!(p.approvals, vec![B, C]);
}

#[test]
fn executed_proposal_is_final() {
    let mut config = wallet_abc();
    let mut p = proposal_by(&mut config, A, 0);
    assert_eq!(approve_proposal(&config, &mut p, B, 50), Ok(()));
    assert_eq!(approve_proposal(&config, &mut p, C, 50), Ok(()));
    assert_eq!(execute_proposal(&config, &mut p, 50), Ok(()));

    assert_eq!(
        approve_proposal(&config, &mut p, A, 50).unwrap_err(),
        MultisigWalletError::ProposalAlreadyExecuted
    );
    assert_eq!(
        execute_proposal(&config, &mut p, 50).unwrap_err(),
        MultisigWalletError::ProposalAlreadyExecuted
    );
    assert_eq!(
        cancel_proposal(&mut p, A).unwrap_err(),
        MultisigWalletError::ProposalAlreadyExecuted
    );
    assert!(p.executed);
    assert!(!p.cancelled);
    assert_eq!(p.approvals, vec![B, C]);
}

#[test]
fn cancelled_proposal_is_final() {
    let mut config = wallet_abc();
    let mut p = proposal_by(&mut config, A, 0);
    assert_eq!(approve_proposal(&config, &mut p, B, 50), Ok(()));
    assert_eq!(cancel_proposal(&mut p, A), Ok(()));
    assert!(p.cancelled);
    assert!(!p.executed);

    assert_eq!(
        approve_proposal(&config, &mut p, C, 50).unwrap_err(),
        MultisigWalletError::ProposalCancelled
    );
    assert_eq!(
        execute_proposal(&config, &mut p, 50).unwrap_err(),
        MultisigWalletError::ProposalCancelled
    );
    assert_eq!(
        cancel_proposal(&mut p, A).unwrap_err(),
        MultisigWalletError::ProposalCancelled
    );
    assert_eq!(p.approvals, vec![B]);
}

#[test]
fn cancel_is_reserved_to_the_creator() {
    let mut config = wallet_abc();
    let mut p = proposal_by(&mut config, A, 0);
    assert_eq!(cancel_proposal(&mut p, B).unwrap_err(), MultisigWalletError::NotASigner);
    assert!(!p.cancelled);
    assert_eq!(cancel_proposal(&mut p, A), Ok(()));
    assert!(p.cancelled);
}

#[test]
fn cancel_ignores_expiration() {
    let mut config = wallet_abc();
    let mut p = proposal_by(&mut config, A, 40);
    assert_eq!(cancel_proposal(&mut p, A), Ok(()));
    assert!(p.cancelled);
}

#[test]
fn execute_rejects_expired_despite_quorum() {
    let mut config = wallet_abc();
    let mut p = proposal_by(&mut config, A, 60);
    assert_eq!(approve_proposal(&config, &mut p, B, 50), Ok(()));
    assert_eq!(approve_proposal(&config, &mut p, C, 50), Ok(()));
    assert_eq!(
        execute_proposal(&config, &mut p, 61).unwrap_err(),
        MultisigWalletError::ProposalExpired
    );
    assert!(!p.executed);
}

#[test]
fn governance_change_keeps_still_current_approvals() {
    let mut config = wallet_abc();
    let mut p = proposal_by(&mut config, A, 0);
    assert_eq!(approve_proposal(&config, &mut p, B, 50), Ok(()));
    assert_eq!(approve_proposal(&config, &mut p, C, 50), Ok(()));

    let d: u64 = 4;
    assert_eq!(update_multisig(&mut config, vec![A, B, C, d], 2, true), Ok(()));

    assert_eq!(execute_proposal(&config, &mut p, 50), Ok(()));
    assert!(p.executed);
}

#[test]
fn quorum_counts_distinct_current_signers_only() {
    let mut config = wallet_abc();
    let mut p = proposal_by(&mut config, A, 0);
    assert_eq!(approve_proposal(&config, &mut p, B, 50), Ok(()));
    assert_eq!(approve_proposal(&config, &mut p, B, 50), Ok(()));
    assert_eq!(approve_proposal(&config, &mut p, B, 50), Ok(()));
    assert_eq!(p.approvals, vec![B]);
    assert_eq!(
        execute_proposal(&config, &mut p, 50).unwrap_err(),
        MultisigWalletError::InsufficientApprovals
    );
}
