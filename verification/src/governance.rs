//! DAO budget governance: members propose treasury spending, vote once each
//! within a voting window, and a proposal is finalized against a quorum and a
//! simple majority. An unfinalized proposal expires after a grace period and
//! can then only be rejected.
//!
//! `GovernanceContract` models the contract's persisted state as a value: the
//! admin, the member roster, the voting configuration, and every proposal in
//! creation order (a proposal's id is its position).

use crate::accounts::{contains_account, copy_accounts, lemma_remove_account_len, remove_account, spec_remove_account};
use vstd::arithmetic::mul::lemma_mul_upper_bound;
use vstd::prelude::*;

verus! {

/// Status of a budget proposal.
#[derive(Clone, Copy, Debug, PartialEq, Eq, Structural)]
pub enum ProposalStatus {
    /// The proposal is open for voting.
    Active,
    /// The proposal met quorum and a majority voted yes.
    Approved,
    /// The proposal missed quorum, lost the vote, or outlived its grace
    /// period.
    Rejected,
    /// The approved proposal's funds have been disbursed.
    Executed,
    /// The proposer withdrew the proposal.
    Cancelled,
    /// The proposal was not finalized within the grace period; reported by
    /// live status queries, stored as `Rejected` upon finalization.
    Expired,
}

/// The choice a member casts on a proposal.
#[derive(Clone, Copy, Debug, PartialEq, Eq, Structural)]
pub enum VoteChoice {
    Yes,
    No,
    Abstain,
}

/// Failures of the governance operations.
#[derive(Clone, Copy, Debug, PartialEq, Eq, Structural)]
pub enum GovernanceError {
    AlreadyInitialized,
    NotInitialized,
    Unauthorized,
    NotAMember,
    InvalidAmount,
    ProposalNotFound,
    VotingNotActive,
    VotingPeriodExpired,
    AlreadyVoted,
    ProposalStillActive,
    ProposalNotApproved,
}

/// A record of one cast vote.
#[derive(Clone, Copy, Debug, PartialEq, Eq, Structural)]
pub struct VoteRecord {
    pub voter: u64,
    pub choice: VoteChoice,
    pub timestamp: u64,
}

/// A budget proposal requesting funds from the treasury.
#[derive(Debug)]
pub struct Proposal {
    /// Unique identifier; equals the proposal's position in creation order.
    pub id: u32,
    /// The member who submitted the proposal.
    pub proposer: u64,
    /// Short title, encoded as the host encodes small symbols.
    pub title: u64,
    /// The token requested.
    pub token: u64,
    /// Amount of tokens requested; strictly positive.
    pub amount: i128,
    /// The recipient of the funds if approved.
    pub recipient: u64,
    /// Votes in favor.
    pub yes_votes: u32,
    /// Votes against.
    pub no_votes: u32,
    /// Abstaining votes.
    pub abstain_votes: u32,
    /// Every cast vote, in voting order.
    pub votes: Vec<VoteRecord>,
    /// Current status.
    pub status: ProposalStatus,
    /// When voting began.
    pub start_time: u64,
    /// When the voting window closes.
    pub end_time: u64,
}

/// Governance configuration snapshot.
#[derive(Clone, Copy, Debug, PartialEq, Eq, Structural)]
pub struct GovernanceConfig {
    /// Minimum percentage of members that must vote for a proposal to be
    /// decidable.
    pub quorum_percentage: u32,
    /// Length of the voting window.
    pub voting_duration: u64,
    /// Buffer after the voting window before an unfinalized proposal expires.
    pub grace_period: u64,
    /// Number of DAO members.
    pub member_count: u32,
}

impl Proposal {
    /// Well-formedness: the three tallies count exactly the recorded votes, a
    /// positive request, and an ordered voting window.
    pub open spec fn wf(self) -> bool {
        &&& self.yes_votes + self.no_votes + self.abstain_votes == self.votes@.len()
        &&& self.votes@.len() <= u32::MAX
        &&& self.amount > 0
        &&& self.start_time <= self.end_time
    }
}

/// Whether `voter` already has a vote recorded.
pub open spec fn spec_has_voted(votes: Seq<VoteRecord>, voter: u64) -> bool {
    exists|j: int| 0 <= j < votes.len() && votes[j].voter == voter
}

/// Field-by-field agreement of two proposal values (their vote logs compared
/// by contents).
pub open spec fn proposal_matches(a: Proposal, b: Proposal) -> bool {
    &&& a.id == b.id
    &&& a.proposer == b.proposer
    &&& a.title == b.title
    &&& a.token == b.token
    &&& a.amount == b.amount
    &&& a.recipient == b.recipient
    &&& a.yes_votes == b.yes_votes
    &&& a.no_votes == b.no_votes
    &&& a.abstain_votes == b.abstain_votes
    &&& a.votes@ == b.votes@
    &&& a.status == b.status
    &&& a.start_time == b.start_time
    &&& a.end_time == b.end_time
}

/// How a freshly created proposal relates to its creation parameters.
pub open spec fn proposal_created(
    p: Proposal,
    id: u32,
    proposer: u64,
    title: u64,
    token: u64,
    amount: i128,
    recipient: u64,
    start_time: u64,
    end_time: u64,
) -> bool {
    &&& p.id == id
    &&& p.proposer == proposer
    &&& p.title == title
    &&& p.token == token
    &&& p.amount == amount
    &&& p.recipient == recipient
    &&& p.yes_votes == 0
    &&& p.no_votes == 0
    &&& p.abstain_votes == 0
    &&& p.votes@ == Seq::<VoteRecord>::empty()
    &&& p.status == ProposalStatus::Active
    &&& p.start_time == start_time
    &&& p.end_time == end_time
}

/// How a proposal after one cast vote relates to the proposal before it: the
/// record is appended, exactly the chosen tally advances by one, and nothing
/// else moves.
pub open spec fn vote_applied(q: Proposal, p: Proposal, voter: u64, choice: VoteChoice, now: u64)
    -> bool {
    &&& p.id == q.id
    &&& p.proposer == q.proposer
    &&& p.title == q.title
    &&& p.token == q.token
    &&& p.amount == q.amount
    &&& p.recipient == q.recipient
    &&& p.yes_votes as int == q.yes_votes + (if choice == VoteChoice::Yes { 1int } else { 0 })
    &&& p.no_votes as int == q.no_votes + (if choice == VoteChoice::No { 1int } else { 0 })
    &&& p.abstain_votes as int == q.abstain_votes + (if choice == VoteChoice::Abstain { 1int } else { 0 })
    &&& p.votes@ == q.votes@.push((VoteRecord { voter, choice, timestamp: now }))
    &&& p.status == q.status
    &&& p.start_time == q.start_time
    &&& p.end_time == q.end_time
}

/// A proposal after finalization: only its status moved, to `st`.
pub open spec fn status_set(q: Proposal, p: Proposal, st: ProposalStatus) -> bool {
    &&& p.id == q.id
    &&& p.proposer == q.proposer
    &&& p.title == q.title
    &&& p.token == q.token
    &&& p.amount == q.amount
    &&& p.recipient == q.recipient
    &&& p.yes_votes == q.yes_votes
    &&& p.no_votes == q.no_votes
    &&& p.abstain_votes == q.abstain_votes
    &&& p.votes@ == q.votes@
    &&& p.status == st
    &&& p.start_time == q.start_time
    &&& p.end_time == q.end_time
}

/// Governance contract state.
pub struct GovernanceContract {
    pub admin: Option<u64>,
    pub members: Vec<u64>,
    pub quorum_percentage: u32,
    pub voting_duration: u64,
    pub grace_period: u64,
    pub proposals: Vec<Proposal>,
}

impl GovernanceContract {
    /// Well-formedness of the whole contract state.
    pub open spec fn wf(self) -> bool {
        &&& self.members@.len() <= u32::MAX
        &&& self.proposals@.len() <= u32::MAX
        &&& forall|i: int|
            0 <= i < self.proposals@.len() ==> (#[trigger] self.proposals@[i]).wf()
                && self.proposals@[i].id == i
    }

    /// Whether `account` is a DAO member.
    pub open spec fn spec_is_member(self, account: u64) -> bool {
        self.members@.contains(account)
    }

    /// Which error, if any, a proposal creation is rejected with.
    pub open spec fn spec_create_err(self, proposer: u64, amount: i128) -> Option<
        GovernanceError,
    > {
        if self.admin is None {
            Some(GovernanceError::NotInitialized)
        } else if !self.spec_is_member(proposer) {
            Some(GovernanceError::NotAMember)
        } else if amount <= 0 {
            Some(GovernanceError::InvalidAmount)
        } else {
            None
        }
    }

    /// Which error, if any, a vote is rejected with.
    pub open spec fn spec_vote_err(self, voter: u64, proposal_id: u32, now: u64) -> Option<
        GovernanceError,
    > {
        if self.admin is None {
            Some(GovernanceError::NotInitialized)
        } else if !self.spec_is_member(voter) {
            Some(GovernanceError::NotAMember)
        } else if proposal_id >= self.proposals@.len() {
            Some(GovernanceError::ProposalNotFound)
        } else {
            let p = self.proposals@[proposal_id as int];
            if p.status != ProposalStatus::Active {
                Some(GovernanceError::VotingNotActive)
            } else if now > p.end_time {
                Some(GovernanceError::VotingPeriodExpired)
            } else if spec_has_voted(p.votes@, voter) {
                Some(GovernanceError::AlreadyVoted)
            } else {
                None
            }
        }
    }

    /// Which error, if any, finalization is rejected with.
    pub open spec fn spec_finalize_err(self, proposal_id: u32, now: u64) -> Option<
        GovernanceError,
    > {
        if self.admin is None {
            Some(GovernanceError::NotInitialized)
        } else if proposal_id >= self.proposals@.len() {
            Some(GovernanceError::ProposalNotFound)
        } else {
            let p = self.proposals@[proposal_id as int];
            if p.status != ProposalStatus::Active {
                Some(GovernanceError::VotingNotActive)
            } else if now <= p.end_time {
                Some(GovernanceError::ProposalStillActive)
            } else {
                None
            }
        }
    }

    /// The stored outcome of finalizing proposal `p` at `now`: rejection when
    /// the grace period has lapsed or quorum was missed, otherwise the simple
    /// majority of yes over no.
    pub open spec fn spec_finalize_outcome(self, p: Proposal, now: u64) -> ProposalStatus {
        let total_votes = p.yes_votes + p.no_votes + p.abstain_votes;
        let quorum_threshold = self.members@.len() * self.quorum_percentage / 100;
        if now > p.end_time + self.grace_period {
            ProposalStatus::Rejected
        } else if total_votes < quorum_threshold {
            ProposalStatus::Rejected
        } else if p.yes_votes > p.no_votes {
            ProposalStatus::Approved
        } else {
            ProposalStatus::Rejected
        }
    }

    /// The live status of a proposal at `now`: its stored status, except that
    /// an unfinalized proposal past its grace period reads as expired.
    pub open spec fn spec_live_status(self, p: Proposal, now: u64) -> ProposalStatus {
        if p.status != ProposalStatus::Active {
            p.status
        } else if now > p.end_time + self.grace_period {
            ProposalStatus::Expired
        } else {
            ProposalStatus::Active
        }
    }

    /// Fresh, uninitialized contract state.
    pub fn new() -> (r: Self)
        ensures
            r.wf(),
            r.admin is None,
            r.proposals@.len() == 0,
    {
        GovernanceContract {
            admin: None,
            members: Vec::new(),
            quorum_percentage: 0,
            voting_duration: 0,
            grace_period: 0,
            proposals: Vec::new(),
        }
    }

    /// Record the admin, the initial member roster and the voting
    /// configuration; rejected if already initialized.
    pub fn initialize(
        &mut self,
        admin: u64,
        members: Vec<u64>,
        quorum_percentage: u32,
        voting_duration: u64,
        grace_period: u64,
    ) -> (r: Result<(), GovernanceError>)
        requires
            old(self).wf(),
            members@.len() <= u32::MAX,
        ensures
            final(self).wf(),
            match r {
                Ok(()) => {
                    &&& old(self).admin is None
                    &&& final(self).admin == Some(admin)
                    &&& final(self).members@ == members@
                    &&& final(self).quorum_percentage == quorum_percentage
                    &&& final(self).voting_duration == voting_duration
                    &&& final(self).grace_period == grace_period
                    &&& final(self).proposals == old(self).proposals
                },
                Err(e) => *final(self) == *old(self) && e == GovernanceError::AlreadyInitialized
                    && old(self).admin is Some,
            },
    {
        if self.admin.is_some() {
            return Err(GovernanceError::AlreadyInitialized);
        }
        self.admin = Some(admin);
        self.members = members;
        self.quorum_percentage = quorum_percentage;
        self.voting_duration = voting_duration;
        self.grace_period = grace_period;
        Ok(())
    }

    /// Submit a budget proposal; only members may propose. The voting window
    /// opens at `now` and closes `voting_duration` later. Returns the new
    /// proposal's id; on any failure the state is unchanged.
    pub fn create_proposal(
        &mut self,
        proposer: u64,
        title: u64,
        token: u64,
        amount: i128,
        recipient: u64,
        now: u64,
    ) -> (r: Result<u32, GovernanceError>)
        requires
            old(self).wf(),
            old(self).proposals@.len() < u32::MAX,
            now + old(self).voting_duration <= u64::MAX,
        ensures
            final(self).wf(),
            final(self).admin == old(self).admin,
            final(self).members == old(self).members,
            match r {
                Ok(id) => {
                    &&& old(self).spec_create_err(proposer, amount) is None
                    &&& id == old(self).proposals@.len()
                    &&& final(self).proposals@.len() == old(self).proposals@.len() + 1
                    &&& proposal_created(
                        final(self).proposals@[id as int],
                        id,
                        proposer,
                        title,
                        token,
                        amount,
                        recipient,
                        now,
                        (now + old(self).voting_duration) as u64,
                    )
                    &&& forall|j: int|
                        0 <= j < old(self).proposals@.len() ==> final(self).proposals@[j] == old(self).proposals@[j]
                },
                Err(e) => *final(self) == *old(self) && Some(e) == old(self).spec_create_err(
                    proposer,
                    amount,
                ),
            },
    {
        if self.admin.is_none() {
            return Err(GovernanceError::NotInitialized);
        }
        if !contains_account(&self.members, proposer) {
            return Err(GovernanceError::NotAMember);
        }
        if amount <= 0 {
            return Err(GovernanceError::InvalidAmount);
        }

        let proposal_id: u32 = self.proposals.len() as u32;
        let proposal = Proposal {
            id: proposal_id,
            proposer,
            title,
            token,
            amount,
            recipient,
            yes_votes: 0,
            no_votes: 0,
            abstain_votes: 0,
            votes: Vec::new(),
            status: ProposalStatus::Active,
            start_time: now,
            end_time: now + self.voting_duration,
        };
        self.proposals.push(proposal);
        Ok(proposal_id)
    }

    /// Cast a vote on an active proposal; each member votes at most once, and
    /// only within the voting window.
    pub fn vote(&mut self, voter: u64, proposal_id: u32, choice: VoteChoice, now: u64) -> (r:
        Result<(), GovernanceError>)
        requires
            old(self).wf(),
            proposal_id < old(self).proposals@.len() ==> old(self).proposals@[
                proposal_id as int
            ].votes@.len() < u32::MAX,
        ensures
            final(self).wf(),
            final(self).admin == old(self).admin,
            final(self).members == old(self).members,
            match r {
                Ok(()) => {
                    &&& old(self).spec_vote_err(voter, proposal_id, now) is None
                    &&& proposal_id < old(self).proposals@.len()
                    &&& final(self).proposals@.len() == old(self).proposals@.len()
                    &&& vote_applied(
                        old(self).proposals@[proposal_id as int],
                        final(self).proposals@[proposal_id as int],
                        voter,
                        choice,
                        now,
                    )
                    &&& forall|j: int|
                        0 <= j < old(self).proposals@.len() && j != proposal_id ==> final(self).proposals@[j] == old(self).proposals@[j]
                },
                Err(e) => *final(self) == *old(self) && Some(e) == old(self).spec_vote_err(
                    voter,
                    proposal_id,
                    now,
                ),
            },
    {
        if self.admin.is_none() {
            return Err(GovernanceError::NotInitialized);
        }
        if !contains_account(&self.members, voter) {
            return Err(GovernanceError::NotAMember);
        }
        if proposal_id as usize >= self.proposals.len() {
            return Err(GovernanceError::ProposalNotFound);
        }
        let idx = proposal_id as usize;
        if self.proposals[idx].status != ProposalStatus::Active {
            return Err(GovernanceError::VotingNotActive);
        }
        if now > self.proposals[idx].end_time {
            return Err(GovernanceError::VotingPeriodExpired);
        }
        if has_voted(&self.proposals[idx].votes, voter) {
            return Err(GovernanceError::AlreadyVoted);
        }

        let proposal = &mut self.proposals[idx];
        match choice {
            VoteChoice::Yes => {
                proposal.yes_votes = proposal.yes_votes + 1;
            },
            VoteChoice::No => {
                proposal.no_votes = proposal.no_votes + 1;
            },
            VoteChoice::Abstain => {
                proposal.abstain_votes = proposal.abstain_votes + 1;
            },
        }
        proposal.votes.push(VoteRecord { voter, choice, timestamp: now });
        Ok(())
    }

    /// Finalize a proposal once its voting window has closed: reject it when
    /// the grace period has lapsed or quorum was missed, otherwise decide it
    /// by simple majority. Stores and returns the outcome. Any authenticated
    /// account may finalize; the caller is not otherwise consulted.
    pub fn finalize(&mut self, _caller: u64, proposal_id: u32, now: u64) -> (r: Result<
        ProposalStatus,
        GovernanceError,
    >)
        requires
            old(self).wf(),
        ensures
            final(self).wf(),
            final(self).admin == old(self).admin,
            final(self).members == old(self).members,
            match r {
                Ok(st) => {
                    &&& old(self).spec_finalize_err(proposal_id, now) is None
                    &&& proposal_id < old(self).proposals@.len()
                    &&& st == old(self).spec_finalize_outcome(
                        old(self).proposals@[proposal_id as int],
                        now,
                    )
                    &&& final(self).proposals@.len() == old(self).proposals@.len()
                    &&& status_set(
                        old(self).proposals@[proposal_id as int],
                        final(self).proposals@[proposal_id as int],
                        st,
                    )
                    &&& forall|j: int|
                        0 <= j < old(self).proposals@.len() && j != proposal_id ==> final(self).proposals@[j] == old(self).proposals@[j]
                },
                Err(e) => *final(self) == *old(self) && Some(e) == old(self).spec_finalize_err(
                    proposal_id,
                    now,
                ),
            },
    {
        if self.admin.is_none() {
            return Err(GovernanceError::NotInitialized);
        }
        if proposal_id as usize >= self.proposals.len() {
            return Err(GovernanceError::ProposalNotFound);
        }
        let idx = proposal_id as usize;
        if self.proposals[idx].status != ProposalStatus::Active {
            return Err(GovernanceError::VotingNotActive);
        }
        if now <= self.proposals[idx].end_time {
            return Err(GovernanceError::ProposalStillActive);
        }

        let p_end = self.proposals[idx].end_time;
        let expired = now > p_end && now - p_end > self.grace_period;

        let status = if expired {
            ProposalStatus::Rejected
        } else {
            let total_votes: u64 = self.proposals[idx].yes_votes as u64
                + self.proposals[idx].no_votes as u64 + self.proposals[idx].abstain_votes as u64;
            proof {
                lemma_mul_upper_bound(
                    self.members@.len() as int,
                    u32::MAX as int,
                    self.quorum_percentage as int,
                    u32::MAX as int,
                );
            }
            let quorum_threshold: u64 = (self.members.len() as u64)
                * (self.quorum_percentage as u64) / 100;
            if total_votes < quorum_threshold {
                ProposalStatus::Rejected
            } else if self.proposals[idx].yes_votes > self.proposals[idx].no_votes {
                ProposalStatus::Approved
            } else {
                ProposalStatus::Rejected
            }
        };

        let proposal = &mut self.proposals[idx];
        proposal.status = status;
        Ok(status)
    }

    /// Disburse an approved proposal; only the stored admin may execute. The
    /// host performs the transfer of the proposal's amount to its recipient.
    pub fn execute(&mut self, admin: u64, proposal_id: u32) -> (r: Result<(), GovernanceError>)
        requires
            old(self).wf(),
        ensures
            final(self).wf(),
            final(self).admin == old(self).admin,
            final(self).members == old(self).members,
            match r {
                Ok(()) => {
                    &&& old(self).admin == Some(admin)
                    &&& proposal_id < old(self).proposals@.len()
                    &&& old(self).proposals@[proposal_id as int].status
                        == ProposalStatus::Approved
                    &&& final(self).proposals@.len() == old(self).proposals@.len()
                    &&& status_set(
                        old(self).proposals@[proposal_id as int],
                        final(self).proposals@[proposal_id as int],
                        ProposalStatus::Executed,
                    )
                    &&& forall|j: int|
                        0 <= j < old(self).proposals@.len() && j != proposal_id ==> final(self).proposals@[j] == old(self).proposals@[j]
                },
                Err(e) => *final(self) == *old(self) && Some(e) == (
                if old(self).admin is None {
                    Some(GovernanceError::NotInitialized)
                } else if old(self).admin != Some(admin) {
                    Some(GovernanceError::Unauthorized)
                } else if proposal_id >= old(self).proposals@.len() {
                    Some(GovernanceError::ProposalNotFound)
                } else if old(self).proposals@[proposal_id as int].status
                    != ProposalStatus::Approved {
                    Some(GovernanceError::ProposalNotApproved)
                } else {
                    None
                }),
            },
    {
        let stored_admin = match self.admin {
            Some(a) => a,
            None => { return Err(GovernanceError::NotInitialized) },
        };
        if stored_admin != admin {
            return Err(GovernanceError::Unauthorized);
        }
        if proposal_id as usize >= self.proposals.len() {
            return Err(GovernanceError::ProposalNotFound);
        }
        let idx = proposal_id as usize;
        if self.proposals[idx].status != ProposalStatus::Approved {
            return Err(GovernanceError::ProposalNotApproved);
        }
        let proposal = &mut self.proposals[idx];
        proposal.status = ProposalStatus::Executed;
        Ok(())
    }

    /// Withdraw an active proposal; only its proposer may cancel it.
    pub fn cancel_proposal(&mut self, proposer: u64, proposal_id: u32) -> (r: Result<
        (),
        GovernanceError,
    >)
        requires
            old(self).wf(),
        ensures
            final(self).wf(),
            final(self).admin == old(self).admin,
            final(self).members == old(self).members,
            match r {
                Ok(()) => {
                    &&& old(self).admin is Some
                    &&& proposal_id < old(self).proposals@.len()
                    &&& old(self).proposals@[proposal_id as int].proposer == proposer
                    &&& old(self).proposals@[proposal_id as int].status == ProposalStatus::Active
                    &&& final(self).proposals@.len() == old(self).proposals@.len()
                    &&& status_set(
                        old(self).proposals@[proposal_id as int],
                        final(self).proposals@[proposal_id as int],
                        ProposalStatus::Cancelled,
                    )
                    &&& forall|j: int|
                        0 <= j < old(self).proposals@.len() && j != proposal_id ==> final(self).proposals@[j] == old(self).proposals@[j]
                },
                Err(e) => *final(self) == *old(self) && Some(e) == (
                if old(self).admin is None {
                    Some(GovernanceError::NotInitialized)
                } else if proposal_id >= old(self).proposals@.len() {
                    Some(GovernanceError::ProposalNotFound)
                } else if old(self).proposals@[proposal_id as int].proposer != proposer {
                    Some(GovernanceError::Unauthorized)
                } else if old(self).proposals@[proposal_id as int].status
                    != ProposalStatus::Active {
                    Some(GovernanceError::VotingNotActive)
                } else {
                    None
                }),
            },
    {
        if self.admin.is_none() {
            return Err(GovernanceError::NotInitialized);
        }
        if proposal_id as usize >= self.proposals.len() {
            return Err(GovernanceError::ProposalNotFound);
        }
        let idx = proposal_id as usize;
        if self.proposals[idx].proposer != proposer {
            return Err(GovernanceError::Unauthorized);
        }
        if self.proposals[idx].status != ProposalStatus::Active {
            return Err(GovernanceError::VotingNotActive);
        }
        let proposal = &mut self.proposals[idx];
        proposal.status = ProposalStatus::Cancelled;
        Ok(())
    }

    /// Add a member to the roster; admin only. An account that is already a
    /// member is rejected, reusing the duplicate-action error of the vote
    /// interface.
    pub fn add_member(&mut self, admin: u64, new_member: u64) -> (r: Result<(), GovernanceError>)
        requires
            old(self).wf(),
            old(self).members@.len() < u32::MAX,
        ensures
            final(self).wf(),
            final(self).admin == old(self).admin,
            final(self).proposals == old(self).proposals,
            match r {
                Ok(()) => {
                    &&& old(self).admin == Some(admin)
                    &&& !old(self).spec_is_member(new_member)
                    &&& final(self).members@ == old(self).members@.push(new_member)
                },
                Err(e) => *final(self) == *old(self) && Some(e) == (
                if old(self).admin is None {
                    Some(GovernanceError::NotInitialized)
                } else if old(self).admin != Some(admin) {
                    Some(GovernanceError::Unauthorized)
                } else if old(self).spec_is_member(new_member) {
                    Some(GovernanceError::AlreadyVoted)
                } else {
                    None
                }),
            },
    {
        let stored_admin = match self.admin {
            Some(a) => a,
            None => { return Err(GovernanceError::NotInitialized) },
        };
        if stored_admin != admin {
            return Err(GovernanceError::Unauthorized);
        }
        if contains_account(&self.members, new_member) {
            return Err(GovernanceError::AlreadyVoted);
        }
        self.members.push(new_member);
        Ok(())
    }

    /// Remove a member from the roster; admin only.
    pub fn remove_member(&mut self, admin: u64, member: u64) -> (r: Result<(), GovernanceError>)
        requires
            old(self).wf(),
        ensures
            final(self).wf(),
            final(self).admin == old(self).admin,
            final(self).proposals == old(self).proposals,
            match r {
                Ok(()) => {
                    &&& old(self).admin == Some(admin)
                    &&& old(self).spec_is_member(member)
                    &&& final(self).members@ == spec_remove_account(old(self).members@, member)
                },
                Err(e) => *final(self) == *old(self) && Some(e) == (
                if old(self).admin is None {
                    Some(GovernanceError::NotInitialized)
                } else if old(self).admin != Some(admin) {
                    Some(GovernanceError::Unauthorized)
                } else if !old(self).spec_is_member(member) {
                    Some(GovernanceError::NotAMember)
                } else {
                    None
                }),
            },
    {
        let stored_admin = match self.admin {
            Some(a) => a,
            None => { return Err(GovernanceError::NotInitialized) },
        };
        if stored_admin != admin {
            return Err(GovernanceError::Unauthorized);
        }
        if !contains_account(&self.members, member) {
            return Err(GovernanceError::NotAMember);
        }
        let remaining = remove_account(&self.members, member);
        self.members = remaining;
        proof {
            lemma_remove_account_len(old(self).members@, member);
        }
        Ok(())
    }

    /// Look a proposal up by id; returns a copy of the stored record.
    pub fn get_proposal(&self, proposal_id: u32) -> (r: Result<Proposal, GovernanceError>)
        requires
            self.wf(),
        ensures
            match r {
                Ok(p) => proposal_id < self.proposals@.len() && proposal_matches(
                    p,
                    self.proposals@[proposal_id as int],
                ),
                Err(e) => proposal_id >= self.proposals@.len() && e
                    == GovernanceError::ProposalNotFound,
            },
    {
        if proposal_id as usize >= self.proposals.len() {
            return Err(GovernanceError::ProposalNotFound);
        }
        Ok(copy_proposal(&self.proposals[proposal_id as usize]))
    }

    /// The live status of a proposal at `now`, without mutating anything: the
    /// stored status, except that an unfinalized proposal past its grace
    /// period reads as expired.
    pub fn get_proposal_status(&self, proposal_id: u32, now: u64) -> (r: Result<
        ProposalStatus,
        GovernanceError,
    >)
        requires
            self.wf(),
        ensures
            match r {
                Ok(st) => proposal_id < self.proposals@.len() && st == self.spec_live_status(
                    self.proposals@[proposal_id as int],
                    now,
                ),
                Err(e) => proposal_id >= self.proposals@.len() && e
                    == GovernanceError::ProposalNotFound,
            },
    {
        if proposal_id as usize >= self.proposals.len() {
            return Err(GovernanceError::ProposalNotFound);
        }
        let p = &self.proposals[proposal_id as usize];
        if p.status != ProposalStatus::Active {
            return Ok(p.status);
        }
        if now > p.end_time && now - p.end_time > self.grace_period {
            return Ok(ProposalStatus::Expired);
        }
        Ok(ProposalStatus::Active)
    }

    /// How many proposals have been created.
    pub fn get_proposal_count(&self) -> (r: u32)
        requires
            self.wf(),
        ensures
            r == self.proposals@.len(),
    {
        self.proposals.len() as u32
    }

    /// The member roster, in insertion order.
    pub fn get_members(&self) -> (r: Vec<u64>)
        ensures
            r@ == self.members@,
    {
        copy_accounts(&self.members)
    }

    /// The governance configuration, once initialized.
    pub fn get_config(&self) -> (r: Result<GovernanceConfig, GovernanceError>)
        requires
            self.wf(),
        ensures
            match r {
                Ok(c) => self.admin is Some && c.quorum_percentage == self.quorum_percentage
                    && c.voting_duration == self.voting_duration && c.grace_period
                    == self.grace_period && c.member_count == self.members@.len(),
                Err(e) => self.admin is None && e == GovernanceError::NotInitialized,
            },
    {
        if self.admin.is_none() {
            return Err(GovernanceError::NotInitialized);
        }
        Ok(
            GovernanceConfig {
                quorum_percentage: self.quorum_percentage,
                voting_duration: self.voting_duration,
                grace_period: self.grace_period,
                member_count: self.members.len() as u32,
            },
        )
    }

    /// The admin account, once initialized.
    pub fn get_admin(&self) -> (r: Result<u64, GovernanceError>)
        ensures
            match r {
                Ok(a) => self.admin == Some(a),
                Err(e) => self.admin is None && e == GovernanceError::NotInitialized,
            },
    {
        match self.admin {
            Some(a) => Ok(a),
            None => Err(GovernanceError::NotInitialized),
        }
    }
}

/// Whether `voter` already has a vote recorded.
pub fn has_voted(votes: &Vec<VoteRecord>, voter: u64) -> (r: bool)
    ensures
        r == spec_has_voted(votes@, voter),
{
    let n = votes.len();
    for i in 0..n
        invariant
            n == votes@.len(),
            forall|j: int| 0 <= j < i ==> votes@[j].voter != voter,
    {
        if votes[i].voter == voter {
            return true;
        }
    }
    false
}

/// A fresh copy of a proposal record, vote log included.
pub fn copy_proposal(p: &Proposal) -> (r: Proposal)
    ensures
        proposal_matches(r, *p),
{
    let mut votes: Vec<VoteRecord> = Vec::new();
    let n = p.votes.len();
    for i in 0..n
        invariant
            n == p.votes@.len(),
            votes@ == p.votes@.take(i as int),
    {
        votes.push(p.votes[i]);
        proof {
            assert(p.votes@.take(i + 1) =~= p.votes@.take(i as int).push(p.votes@[i as int]));
        }
    }
    proof {
        assert(p.votes@.take(n as int) =~= p.votes@);
    }
    Proposal {
        id: p.id,
        proposer: p.proposer,
        title: p.title,
        token: p.token,
        amount: p.amount,
        recipient: p.recipient,
        yes_votes: p.yes_votes,
        no_votes: p.no_votes,
        abstain_votes: p.abstain_votes,
        votes,
        status: p.status,
        start_time: p.start_time,
        end_time: p.end_time,
    }
}

} // verus!
