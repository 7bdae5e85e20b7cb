//! Multi-signature treasury scenarios: withdrawal proposals, threshold
//! approval, execution against the reported vault balance, and signer
//! administration. Vault balances are tracked in the tests from the amounts
//! the operations approve, exactly as the host would move them.

use treasury_core::treasury::{TreasuryContract, WithdrawalStatus};

const ADMIN: u64 = 1;
const TOKEN: u64 = 7;
const RECIPIENT: u64 = 8;
const SIGNER1: u64 = 20;
const SIGNER2: u64 = 21;
const SIGNER3: u64 = 22;
const MEMO_SALARY: u64 = 300;

#[test]
fn test_initialize_treasury() {
    let mut c = TreasuryContract::new();
    c.initialize(ADMIN, vec![SIGNER1, SIGNER2], 2).unwrap();

    assert_eq!(c.get_admin(), Ok(ADMIN));
    assert_eq!(c.get_threshold(), Ok(2));
    assert_eq!(c.get_signers().unwrap().len(), 2);
}

#[test]
#[should_panic]
fn test_test_double_initialize() {
    let mut c = TreasuryContract::new();
    c.initialize(ADMIN, vec![SIGNER1], 1).unwrap();
    // This must be rejected with AlreadyInitialized.
    c.initialize(ADMIN, vec![SIGNER1], 1).unwrap();
}

#[test]
fn test_create_and_approve_withdrawal() {
    let mut c = TreasuryContract::new();
    c.initialize(ADMIN, vec![SIGNER1, SIGNER2], 2).unwrap();

    let proposal_id = c
        .create_withdrawal(SIGNER1, TOKEN, RECIPIENT, 1000, MEMO_SALARY, 0)
        .unwrap();
    assert_eq!(proposal_id, 0);

    // The first approval is the proposer's own.
    let request = c.get_withdrawal(proposal_id).unwrap();
    assert_eq!(request.approvals.len(), 1);

    // The second signer approves; the threshold is met.
    c.approve_withdrawal(SIGNER2, proposal_id).unwrap();
    let request = c.get_withdrawal(proposal_id).unwrap();
    assert_eq!(request.status, WithdrawalStatus::Approved);
}

#[test]
fn test_add_and_remove_signer() {
    let mut c = TreasuryContract::new();
    c.initialize(ADMIN, vec![SIGNER1, SIGNER2], 1).unwrap();

    // Add a signer.
    c.add_signer(ADMIN, SIGNER3).unwrap();
    assert_eq!(c.get_signers().unwrap().len(), 3);

    // Remove a signer.
    c.remove_signer(ADMIN, SIGNER2).unwrap();
    assert_eq!(c.get_signers().unwrap().len(), 2);
}

#[test]
#[should_panic]
fn test_unauthorized_withdrawal_attempt_non_signer() {
    let mut c = TreasuryContract::new();
    let non_signer: u64 = 99;
    c.initialize(ADMIN, vec![SIGNER1], 1).unwrap();

    c.create_withdrawal(non_signer, TOKEN, RECIPIENT, 1000, MEMO_SALARY, 0)
        .unwrap();
}

#[test]
fn test_threshold_update_boundary_values() {
    let mut c = TreasuryContract::new();
    c.initialize(ADMIN, vec![SIGNER1, SIGNER2, SIGNER3], 2)
        .unwrap();
    assert_eq!(c.get_threshold(), Ok(2));

    c.update_threshold(ADMIN, 1).unwrap();
    assert_eq!(c.get_threshold(), Ok(1));

    c.update_threshold(ADMIN, 3).unwrap();
    assert_eq!(c.get_threshold(), Ok(3));
}

#[test]
#[should_panic]
fn test_threshold_update_zero_rejected() {
    let mut c = TreasuryContract::new();
    c.initialize(ADMIN, vec![SIGNER1], 1).unwrap();

    c.update_threshold(ADMIN, 0).unwrap();
}

#[test]
#[should_panic]
fn test_threshold_update_exceeds_signers_rejected() {
    let mut c = TreasuryContract::new();
    c.initialize(ADMIN, vec![SIGNER1, SIGNER2], 2).unwrap();

    c.update_threshold(ADMIN, 3).unwrap();
}

#[test]
#[should_panic]
fn test_remove_signer_at_threshold_minimum() {
    let mut c = TreasuryContract::new();
    c.initialize(ADMIN, vec![SIGNER1, SIGNER2], 2).unwrap();

    c.remove_signer(ADMIN, SIGNER1).unwrap();
}

#[test]
#[should_panic]
fn test_double_approval_by_same_signer_rejected() {
    let mut c = TreasuryContract::new();
    c.initialize(ADMIN, vec![SIGNER1, SIGNER2], 2).unwrap();

    let proposal_id = c
        .create_withdrawal(SIGNER1, TOKEN, RECIPIENT, 1000, MEMO_SALARY, 0)
        .unwrap();

    c.approve_withdrawal(SIGNER1, proposal_id).unwrap();
}

#[test]
#[should_panic]
fn test_execute_before_approval_threshold_met() {
    let mut c = TreasuryContract::new();
    c.initialize(ADMIN, vec![SIGNER1, SIGNER2, SIGNER3], 3)
        .unwrap();

    let proposal_id = c
        .create_withdrawal(SIGNER1, TOKEN, RECIPIENT, 1000, MEMO_SALARY, 0)
        .unwrap();

    c.execute_withdrawal(SIGNER1, proposal_id, 10_000).unwrap();
}

#[test]
#[should_panic]
fn test_invalid_threshold_zero_at_init() {
    let mut c = TreasuryContract::new();
    c.initialize(ADMIN, vec![SIGNER1], 0).unwrap();
}

#[test]
#[should_panic]
fn test_invalid_threshold_exceeds_signers_at_init() {
    let mut c = TreasuryContract::new();
    c.initialize(ADMIN, vec![SIGNER1, SIGNER2], 3).unwrap();
}

#[test]
fn test_execute_withdrawal_full_flow() {
    let mut c = TreasuryContract::new();
    c.initialize(ADMIN, vec![SIGNER1, SIGNER2], 2).unwrap();

    // The vault is funded with 10,000.
    let deposit_amount: i128 = 10_000;
    let mut vault_balance: i128 = deposit_amount;
    let mut recipient_balance: i128 = 0;
    assert_eq!(vault_balance, deposit_amount);
    assert_eq!(recipient_balance, 0);

    let withdrawal_amount: i128 = 5000;
    let proposal_id = c
        .create_withdrawal(SIGNER1, TOKEN, RECIPIENT, withdrawal_amount, MEMO_SALARY, 0)
        .unwrap();

    c.approve_withdrawal(SIGNER2, proposal_id).unwrap();
    let request = c.get_withdrawal(proposal_id).unwrap();
    assert_eq!(request.status, WithdrawalStatus::Approved);

    c.execute_withdrawal(SIGNER1, proposal_id, vault_balance)
        .unwrap();
    vault_balance -= withdrawal_amount;
    recipient_balance += withdrawal_amount;

    let request = c.get_withdrawal(proposal_id).unwrap();
    assert_eq!(request.status, WithdrawalStatus::Executed);

    assert_eq!(recipient_balance, withdrawal_amount);
    assert_eq!(vault_balance, deposit_amount - withdrawal_amount);
}

#[test]
#[should_panic]
fn test_execute_withdrawal_insufficient_balance() {
    let mut c = TreasuryContract::new();
    c.initialize(ADMIN, vec![SIGNER1, SIGNER2], 2).unwrap();

    // The vault was never funded.
    let vault_balance: i128 = 0;

    let withdrawal_amount: i128 = 5000;
    let proposal_id = c
        .create_withdrawal(SIGNER1, TOKEN, RECIPIENT, withdrawal_amount, MEMO_SALARY, 0)
        .unwrap();

    c.approve_withdrawal(SIGNER2, proposal_id).unwrap();

    c.execute_withdrawal(SIGNER1, proposal_id, vault_balance)
        .unwrap();
}
