//! Multi-signature treasury: deposits into a shared vault, withdrawal
//! requests proposed by signers, approval by distinct signers up to a
//! threshold, and execution once approved and funded.
//!
//! `TreasuryContract` models the contract's persisted state as a value: the
//! admin, the signer set, the approval threshold, and every withdrawal
//! request in creation order (a request's id is its position). The host
//! authenticates callers, reports the vault balance, and performs the
//! transfers.

use crate::accounts::{contains_account, copy_accounts, lemma_remove_account_len, remove_account, spec_remove_account};
use vstd::prelude::*;

verus! {

/// Status of a withdrawal request.
#[derive(Clone, Copy, Debug, PartialEq, Eq, Structural)]
pub enum WithdrawalStatus {
    /// Waiting for approvals.
    Pending,
    /// Enough signers approved; ready to execute.
    Approved,
    /// Funds have been disbursed.
    Executed,
}

/// Failures of the treasury operations.
#[derive(Clone, Copy, Debug, PartialEq, Eq, Structural)]
pub enum TreasuryError {
    /// The contract was already initialized.
    AlreadyInitialized,
    /// The contract has no admin yet.
    NotInitialized,
    /// The caller may not perform this action.
    Unauthorized,
    /// The threshold is zero or exceeds the signer count.
    InvalidThreshold,
    /// The caller is not a registered signer.
    NotASigner,
    /// The amount is zero or negative.
    InvalidAmount,
    /// No withdrawal request has this id.
    ProposalNotFound,
    /// The request is not pending.
    ProposalNotPending,
    /// The request has not met the approval threshold.
    ProposalNotApproved,
    /// This signer already approved the request.
    AlreadyApproved,
    /// The account is already a signer.
    AlreadyASigner,
    /// The vault holds less than the requested amount.
    InsufficientBalance,
    /// The request outlived its validity period.
    ProposalExpired,
}

/// A withdrawal request awaiting multi-signature approval.
#[derive(Debug)]
pub struct WithdrawalRequest {
    /// Unique identifier; equals the request's position in creation order.
    pub id: u32,
    /// The signer who proposed the withdrawal.
    pub proposer: u64,
    /// The token to withdraw.
    pub token: u64,
    /// The recipient of the funds.
    pub recipient: u64,
    /// Amount to withdraw; strictly positive.
    pub amount: i128,
    /// Short memo, encoded as the host encodes small symbols.
    pub memo: u64,
    /// The signers who approved so far, proposer first, each at most once.
    pub approvals: Vec<u64>,
    /// Current status.
    pub status: WithdrawalStatus,
    /// When the request was created.
    pub created_at: u64,
}

/// Treasury configuration snapshot.
#[derive(Debug)]
pub struct TreasuryConfig {
    pub admin: u64,
    pub signers: Vec<u64>,
    pub threshold: u32,
    pub proposal_count: u32,
}

impl WithdrawalRequest {
    /// Well-formedness: a positive amount and at least the proposer's own
    /// approval.
    pub open spec fn wf(self) -> bool {
        &&& self.amount > 0
        &&& self.approvals@.len() >= 1
    }
}

/// Field-by-field agreement of two request values (their approval lists
/// compared by contents).
pub open spec fn withdrawal_matches(a: WithdrawalRequest, b: WithdrawalRequest) -> bool {
    &&& a.id == b.id
    &&& a.proposer == b.proposer
    &&& a.token == b.token
    &&& a.recipient == b.recipient
    &&& a.amount == b.amount
    &&& a.memo == b.memo
    &&& a.approvals@ == b.approvals@
    &&& a.status == b.status
    &&& a.created_at == b.created_at
}

/// How a freshly created request relates to its creation parameters.
pub open spec fn withdrawal_created(
    w: WithdrawalRequest,
    id: u32,
    proposer: u64,
    token: u64,
    recipient: u64,
    amount: i128,
    memo: u64,
    now: u64,
) -> bool {
    &&& w.id == id
    &&& w.proposer == proposer
    &&& w.token == token
    &&& w.recipient == recipient
    &&& w.amount == amount
    &&& w.memo == memo
    &&& w.approvals@ == seq![proposer]
    &&& w.status == WithdrawalStatus::Pending
    &&& w.created_at == now
}

/// How a request after one approval relates to the request before it: the
/// signer is appended and the request flips to approved exactly when the
/// threshold is reached.
pub open spec fn approval_applied(
    q: WithdrawalRequest,
    w: WithdrawalRequest,
    signer: u64,
    threshold: u32,
) -> bool {
    &&& w.id == q.id
    &&& w.proposer == q.proposer
    &&& w.token == q.token
    &&& w.recipient == q.recipient
    &&& w.amount == q.amount
    &&& w.memo == q.memo
    &&& w.approvals@ == q.approvals@.push(signer)
    &&& w.status == (if q.approvals@.len() + 1 >= threshold {
        WithdrawalStatus::Approved
    } else {
        WithdrawalStatus::Pending
    })
    &&& w.created_at == q.created_at
}

/// A request after execution: only its status moved, to executed.
pub open spec fn withdrawal_executed(q: WithdrawalRequest, w: WithdrawalRequest) -> bool {
    &&& w.id == q.id
    &&& w.proposer == q.proposer
    &&& w.token == q.token
    &&& w.recipient == q.recipient
    &&& w.amount == q.amount
    &&& w.memo == q.memo
    &&& w.approvals@ == q.approvals@
    &&& w.status == WithdrawalStatus::Executed
    &&& w.created_at == q.created_at
}

/// Treasury contract state.
pub struct TreasuryContract {
    pub admin: Option<u64>,
    pub signers: Vec<u64>,
    pub threshold: u32,
    pub withdrawals: Vec<WithdrawalRequest>,
}

impl TreasuryContract {
    /// Well-formedness of the whole contract state: a positive threshold once
    /// initialized, and well-formed requests sitting at the positions their
    /// ids name.
    pub open spec fn wf(self) -> bool {
        &&& self.signers@.len() <= u32::MAX
        &&& self.withdrawals@.len() <= u32::MAX
        &&& (self.admin is Some ==> self.threshold >= 1)
        &&& forall|i: int|
            0 <= i < self.withdrawals@.len() ==> (#[trigger] self.withdrawals@[i]).wf()
                && self.withdrawals@[i].id == i
    }

    /// Whether `account` is a registered signer.
    pub open spec fn spec_is_signer(self, account: u64) -> bool {
        self.signers@.contains(account)
    }

    /// Which error, if any, a withdrawal creation is rejected with.
    pub open spec fn spec_create_err(self, proposer: u64, amount: i128) -> Option<TreasuryError> {
        if self.admin is None {
            Some(TreasuryError::NotInitialized)
        } else if !self.spec_is_signer(proposer) {
            Some(TreasuryError::NotASigner)
        } else if amount <= 0 {
            Some(TreasuryError::InvalidAmount)
        } else {
            None
        }
    }

    /// Which error, if any, an approval is rejected with.
    pub open spec fn spec_approve_err(self, signer: u64, proposal_id: u32) -> Option<
        TreasuryError,
    > {
        if self.admin is None {
            Some(TreasuryError::NotInitialized)
        } else if !self.spec_is_signer(signer) {
            Some(TreasuryError::NotASigner)
        } else if proposal_id >= self.withdrawals@.len() {
            Some(TreasuryError::ProposalNotFound)
        } else {
            let w = self.withdrawals@[proposal_id as int];
            if w.status != WithdrawalStatus::Pending {
                Some(TreasuryError::ProposalNotPending)
            } else if w.approvals@.contains(signer) {
                Some(TreasuryError::AlreadyApproved)
            } else {
                None
            }
        }
    }

    /// Which error, if any, an execution is rejected with, given the vault
    /// balance the host reports.
    pub open spec fn spec_execute_err(self, proposal_id: u32, available_balance: i128) -> Option<
        TreasuryError,
    > {
        if self.admin is None {
            Some(TreasuryError::NotInitialized)
        } else if proposal_id >= self.withdrawals@.len() {
            Some(TreasuryError::ProposalNotFound)
        } else {
            let w = self.withdrawals@[proposal_id as int];
            if w.status != WithdrawalStatus::Approved {
                Some(TreasuryError::ProposalNotApproved)
            } else if available_balance < w.amount {
                Some(TreasuryError::InsufficientBalance)
            } else {
                None
            }
        }
    }

    /// Fresh, uninitialized contract state.
    pub fn new() -> (r: Self)
        ensures
            r.wf(),
            r.admin is None,
            r.withdrawals@.len() == 0,
    {
        TreasuryContract {
            admin: None,
            signers: Vec::new(),
            threshold: 0,
            withdrawals: Vec::new(),
        }
    }

    /// Record the admin, the signer set and the approval threshold; the
    /// threshold must be positive and achievable by the given signers.
    pub fn initialize(&mut self, admin: u64, signers: Vec<u64>, threshold: u32) -> (r: Result<
        (),
        TreasuryError,
    >)
        requires
            old(self).wf(),
            signers@.len() <= u32::MAX,
        ensures
            final(self).wf(),
            match r {
                Ok(()) => {
                    &&& old(self).admin is None
                    &&& 1 <= threshold <= signers@.len()
                    &&& final(self).admin == Some(admin)
                    &&& final(self).signers@ == signers@
                    &&& final(self).threshold == threshold
                    &&& final(self).withdrawals == old(self).withdrawals
                },
                Err(e) => *final(self) == *old(self) && Some(e) == (
                if old(self).admin is Some {
                    Some(TreasuryError::AlreadyInitialized)
                } else if threshold == 0 || threshold > signers@.len() {
                    Some(TreasuryError::InvalidThreshold)
                } else {
                    None
                }),
            },
    {
        if self.admin.is_some() {
            return Err(TreasuryError::AlreadyInitialized);
        }
        if threshold == 0 || threshold as usize > signers.len() {
            return Err(TreasuryError::InvalidThreshold);
        }
        self.admin = Some(admin);
        self.signers = signers;
        self.threshold = threshold;
        Ok(())
    }

    /// Accept a deposit into the vault: the engine only validates, the host
    /// moves the tokens. The state itself does not change.
    pub fn deposit(&self, _from: u64, _token: u64, amount: i128) -> (r: Result<
        (),
        TreasuryError,
    >)
        ensures
            match r {
                Ok(()) => self.admin is Some && amount > 0,
                Err(e) => Some(e) == (
                if self.admin is None {
                    Some(TreasuryError::NotInitialized)
                } else if amount <= 0 {
                    Some(TreasuryError::InvalidAmount)
                } else {
                    None
                }),
            },
    {
        if self.admin.is_none() {
            return Err(TreasuryError::NotInitialized);
        }
        if amount <= 0 {
            return Err(TreasuryError::InvalidAmount);
        }
        Ok(())
    }

    /// Create a withdrawal request; only signers may propose, and the
    /// proposer's approval is recorded immediately. Returns the new request's
    /// id; on any failure the state is unchanged.
    pub fn create_withdrawal(
        &mut self,
        proposer: u64,
        token: u64,
        recipient: u64,
        amount: i128,
        memo: u64,
        now: u64,
    ) -> (r: Result<u32, TreasuryError>)
        requires
            old(self).wf(),
            old(self).withdrawals@.len() < u32::MAX,
        ensures
            final(self).wf(),
            final(self).admin == old(self).admin,
            final(self).signers == old(self).signers,
            final(self).threshold == old(self).threshold,
            match r {
                Ok(id) => {
                    &&& old(self).spec_create_err(proposer, amount) is None
                    &&& id == old(self).withdrawals@.len()
                    &&& final(self).withdrawals@.len() == old(self).withdrawals@.len() + 1
                    &&& withdrawal_created(
                        final(self).withdrawals@[id as int],
                        id,
                        proposer,
                        token,
                        recipient,
                        amount,
                        memo,
                        now,
                    )
                    &&& forall|j: int|
                        0 <= j < old(self).withdrawals@.len() ==> final(self).withdrawals@[j]
                            == old(self).withdrawals@[j]
                },
                Err(e) => *final(self) == *old(self) && Some(e) == old(self).spec_create_err(
                    proposer,
                    amount,
                ),
            },
    {
        if self.admin.is_none() {
            return Err(TreasuryError::NotInitialized);
        }
        if !contains_account(&self.signers, proposer) {
            return Err(TreasuryError::NotASigner);
        }
        if amount <= 0 {
            return Err(TreasuryError::InvalidAmount);
        }

        let proposal_id: u32 = self.withdrawals.len() as u32;
        let mut approvals: Vec<u64> = Vec::new();
        approvals.push(proposer);
        let request = WithdrawalRequest {
            id: proposal_id,
            proposer,
            token,
            recipient,
            amount,
            memo,
            approvals,
            status: WithdrawalStatus::Pending,
            created_at: now,
        };
        self.withdrawals.push(request);
        proof {
            assert(final(self).withdrawals@[proposal_id as int].approvals@ =~= seq![proposer]);
        }
        Ok(proposal_id)
    }

    /// Approve a pending request; only signers may approve, each at most
    /// once. Once the threshold is met the request flips to approved.
    pub fn approve_withdrawal(&mut self, signer: u64, proposal_id: u32) -> (r: Result<
        (),
        TreasuryError,
    >)
        requires
            old(self).wf(),
        ensures
            final(self).wf(),
            final(self).admin == old(self).admin,
            final(self).signers == old(self).signers,
            final(self).threshold == old(self).threshold,
            match r {
                Ok(()) => {
                    &&& old(self).spec_approve_err(signer, proposal_id) is None
                    &&& proposal_id < old(self).withdrawals@.len()
                    &&& final(self).withdrawals@.len() == old(self).withdrawals@.len()
                    &&& approval_applied(
                        old(self).withdrawals@[proposal_id as int],
                        final(self).withdrawals@[proposal_id as int],
                        signer,
                        old(self).threshold,
                    )
                    &&& forall|j: int|
                        0 <= j < old(self).withdrawals@.len() && j != proposal_id
                            ==> #[trigger] final(self).withdrawals@[j] == old(self).withdrawals@[j]
                },
                Err(e) => *final(self) == *old(self) && Some(e) == old(self).spec_approve_err(
                    signer,
                    proposal_id,
                ),
            },
    {
        if self.admin.is_none() {
            return Err(TreasuryError::NotInitialized);
        }
        if !contains_account(&self.signers, signer) {
            return Err(TreasuryError::NotASigner);
        }
        if proposal_id as usize >= self.withdrawals.len() {
            return Err(TreasuryError::ProposalNotFound);
        }
        let idx = proposal_id as usize;
        if self.withdrawals[idx].status != WithdrawalStatus::Pending {
            return Err(TreasuryError::ProposalNotPending);
        }
        if contains_account(&self.withdrawals[idx].approvals, signer) {
            return Err(TreasuryError::AlreadyApproved);
        }

        let threshold = self.threshold;
        let request = &mut self.withdrawals[idx];
        request.approvals.push(signer);
        if request.approvals.len() >= threshold as usize {
            request.status = WithdrawalStatus::Approved;
        }
        Ok(())
    }

    /// Execute an approved request, given the vault balance the host reports
    /// for the request's token; the host then transfers the amount to the
    /// recipient. Any authenticated account may execute.
    pub fn execute_withdrawal(
        &mut self,
        _executor: u64,
        proposal_id: u32,
        available_balance: i128,
    ) -> (r: Result<(), TreasuryError>)
        requires
            old(self).wf(),
        ensures
            final(self).wf(),
            final(self).admin == old(self).admin,
            final(self).signers == old(self).signers,
            final(self).threshold == old(self).threshold,
            match r {
                Ok(()) => {
                    &&& old(self).spec_execute_err(proposal_id, available_balance) is None
                    &&& proposal_id < old(self).withdrawals@.len()
                    &&& available_balance >= old(self).withdrawals@[proposal_id as int].amount
                    &&& final(self).withdrawals@.len() == old(self).withdrawals@.len()
                    &&& withdrawal_executed(
                        old(self).withdrawals@[proposal_id as int],
                        final(self).withdrawals@[proposal_id as int],
                    )
                    &&& forall|j: int|
                        0 <= j < old(self).withdrawals@.len() && j != proposal_id
                            ==> #[trigger] final(self).withdrawals@[j] == old(self).withdrawals@[j]
                },
                Err(e) => *final(self) == *old(self) && Some(e) == old(self).spec_execute_err(
                    proposal_id,
                    available_balance,
                ),
            },
    {
        if self.admin.is_none() {
            return Err(TreasuryError::NotInitialized);
        }
        if proposal_id as usize >= self.withdrawals.len() {
            return Err(TreasuryError::ProposalNotFound);
        }
        let idx = proposal_id as usize;
        if self.withdrawals[idx].status != WithdrawalStatus::Approved {
            return Err(TreasuryError::ProposalNotApproved);
        }
        if available_balance < self.withdrawals[idx].amount {
            return Err(TreasuryError::InsufficientBalance);
        }
        let request = &mut self.withdrawals[idx];
        request.status = WithdrawalStatus::Executed;
        Ok(())
    }

    /// Add a signer; admin only, duplicates rejected.
    pub fn add_signer(&mut self, admin: u64, new_signer: u64) -> (r: Result<(), TreasuryError>)
        requires
            old(self).wf(),
            old(self).signers@.len() < u32::MAX,
        ensures
            final(self).wf(),
            final(self).admin == old(self).admin,
            final(self).threshold == old(self).threshold,
            final(self).withdrawals == old(self).withdrawals,
            match r {
                Ok(()) => {
                    &&& old(self).admin == Some(admin)
                    &&& !old(self).spec_is_signer(new_signer)
                    &&& final(self).signers@ == old(self).signers@.push(new_signer)
                },
                Err(e) => *final(self) == *old(self) && Some(e) == (
                if old(self).admin is None {
                    Some(TreasuryError::NotInitialized)
                } else if old(self).admin != Some(admin) {
                    Some(TreasuryError::Unauthorized)
                } else if old(self).spec_is_signer(new_signer) {
                    Some(TreasuryError::AlreadyASigner)
                } else {
                    None
                }),
            },
    {
        let stored_admin = match self.admin {
            Some(a) => a,
            None => { return Err(TreasuryError::NotInitialized) },
        };
        if stored_admin != admin {
            return Err(TreasuryError::Unauthorized);
        }
        if contains_account(&self.signers, new_signer) {
            return Err(TreasuryError::AlreadyASigner);
        }
        self.signers.push(new_signer);
        Ok(())
    }

    /// Remove a signer; admin only, and refused whenever it would leave fewer
    /// signers than the threshold needs.
    pub fn remove_signer(&mut self, admin: u64, signer: u64) -> (r: Result<(), TreasuryError>)
        requires
            old(self).wf(),
        ensures
            final(self).wf(),
            final(self).admin == old(self).admin,
            final(self).threshold == old(self).threshold,
            final(self).withdrawals == old(self).withdrawals,
            match r {
                Ok(()) => {
                    &&& old(self).admin == Some(admin)
                    &&& old(self).signers@.len() > old(self).threshold
                    &&& old(self).spec_is_signer(signer)
                    &&& final(self).signers@ == spec_remove_account(old(self).signers@, signer)
                },
                Err(e) => *final(self) == *old(self) && Some(e) == (
                if old(self).admin is None {
                    Some(TreasuryError::NotInitialized)
                } else if old(self).admin != Some(admin) {
                    Some(TreasuryError::Unauthorized)
                } else if old(self).signers@.len() <= old(self).threshold {
                    Some(TreasuryError::InvalidThreshold)
                } else if !old(self).spec_is_signer(signer) {
                    Some(TreasuryError::NotASigner)
                } else {
                    None
                }),
            },
    {
        let stored_admin = match self.admin {
            Some(a) => a,
            None => { return Err(TreasuryError::NotInitialized) },
        };
        if stored_admin != admin {
            return Err(TreasuryError::Unauthorized);
        }
        if self.signers.len() <= self.threshold as usize {
            return Err(TreasuryError::InvalidThreshold);
        }
        if !contains_account(&self.signers, signer) {
            return Err(TreasuryError::NotASigner);
        }
        let remaining = remove_account(&self.signers, signer);
        self.signers = remaining;
        proof {
            lemma_remove_account_len(old(self).signers@, signer);
        }
        Ok(())
    }

    /// Change the approval threshold; admin only, and the new threshold must
    /// be positive and achievable by the current signers.
    pub fn update_threshold(&mut self, admin: u64, new_threshold: u32) -> (r: Result<
        (),
        TreasuryError,
    >)
        requires
            old(self).wf(),
        ensures
            final(self).wf(),
            final(self).admin == old(self).admin,
            final(self).signers == old(self).signers,
            final(self).withdrawals == old(self).withdrawals,
            match r {
                Ok(()) => {
                    &&& old(self).admin == Some(admin)
                    &&& 1 <= new_threshold <= old(self).signers@.len()
                    &&& final(self).threshold == new_threshold
                },
                Err(e) => *final(self) == *old(self) && Some(e) == (
                if old(self).admin is None {
                    Some(TreasuryError::NotInitialized)
                } else if old(self).admin != Some(admin) {
                    Some(TreasuryError::Unauthorized)
                } else if new_threshold == 0 || new_threshold > old(self).signers@.len() {
                    Some(TreasuryError::InvalidThreshold)
                } else {
                    None
                }),
            },
    {
        let stored_admin = match self.admin {
            Some(a) => a,
            None => { return Err(TreasuryError::NotInitialized) },
        };
        if stored_admin != admin {
            return Err(TreasuryError::Unauthorized);
        }
        if new_threshold == 0 || new_threshold as usize > self.signers.len() {
            return Err(TreasuryError::InvalidThreshold);
        }
        self.threshold = new_threshold;
        Ok(())
    }

    /// The admin account, once initialized.
    pub fn get_admin(&self) -> (r: Result<u64, TreasuryError>)
        ensures
            match r {
                Ok(a) => self.admin == Some(a),
                Err(e) => self.admin is None && e == TreasuryError::NotInitialized,
            },
    {
        match self.admin {
            Some(a) => Ok(a),
            None => Err(TreasuryError::NotInitialized),
        }
    }

    /// The signer set, in insertion order, once initialized.
    pub fn get_signers(&self) -> (r: Result<Vec<u64>, TreasuryError>)
        ensures
            match r {
                Ok(s) => self.admin is Some && s@ == self.signers@,
                Err(e) => self.admin is None && e == TreasuryError::NotInitialized,
            },
    {
        if self.admin.is_none() {
            return Err(TreasuryError::NotInitialized);
        }
        Ok(copy_accounts(&self.signers))
    }

    /// The approval threshold, once initialized.
    pub fn get_threshold(&self) -> (r: Result<u32, TreasuryError>)
        ensures
            match r {
                Ok(t) => self.admin is Some && t == self.threshold,
                Err(e) => self.admin is None && e == TreasuryError::NotInitialized,
            },
    {
        if self.admin.is_none() {
            return Err(TreasuryError::NotInitialized);
        }
        Ok(self.threshold)
    }

    /// Look a withdrawal request up by id; returns a copy of the stored
    /// record.
    pub fn get_withdrawal(&self, proposal_id: u32) -> (r: Result<
        WithdrawalRequest,
        TreasuryError,
    >)
        requires
            self.wf(),
        ensures
            match r {
                Ok(w) => proposal_id < self.withdrawals@.len() && withdrawal_matches(
                    w,
                    self.withdrawals@[proposal_id as int],
                ),
                Err(e) => proposal_id >= self.withdrawals@.len() && e
                    == TreasuryError::ProposalNotFound,
            },
    {
        if proposal_id as usize >= self.withdrawals.len() {
            return Err(TreasuryError::ProposalNotFound);
        }
        Ok(copy_withdrawal(&self.withdrawals[proposal_id as usize]))
    }

    /// How many withdrawal requests have been created, once initialized.
    pub fn get_proposal_count(&self) -> (r: Result<u32, TreasuryError>)
        requires
            self.wf(),
        ensures
            match r {
                Ok(c) => self.admin is Some && c == self.withdrawals@.len(),
                Err(e) => self.admin is None && e == TreasuryError::NotInitialized,
            },
    {
        if self.admin.is_none() {
            return Err(TreasuryError::NotInitialized);
        }
        Ok(self.withdrawals.len() as u32)
    }

    /// The full configuration snapshot, once initialized.
    pub fn get_config(&self) -> (r: Result<TreasuryConfig, TreasuryError>)
        requires
            self.wf(),
        ensures
            match r {
                Ok(c) => {
                    &&& self.admin == Some(c.admin)
                    &&& c.signers@ == self.signers@
                    &&& c.threshold == self.threshold
                    &&& c.proposal_count == self.withdrawals@.len()
                },
                Err(e) => self.admin is None && e == TreasuryError::NotInitialized,
            },
    {
        let admin = match self.admin {
            Some(a) => a,
            None => { return Err(TreasuryError::NotInitialized) },
        };
        Ok(
            TreasuryConfig {
                admin,
                signers: copy_accounts(&self.signers),
                threshold: self.threshold,
                proposal_count: self.withdrawals.len() as u32,
            },
        )
    }
}

/// A fresh copy of a withdrawal request, approval list included.
pub fn copy_withdrawal(w: &WithdrawalRequest) -> (r: WithdrawalRequest)
    ensures
        withdrawal_matches(r, *w),
{
    WithdrawalRequest {
        id: w.id,
        proposer: w.proposer,
        token: w.token,
        recipient: w.recipient,
        amount: w.amount,
        memo: w.memo,
        approvals: copy_accounts(&w.approvals),
        status: w.status,
        created_at: w.created_at,
    }
}

} // verus!
