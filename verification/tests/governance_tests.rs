//! DAO governance scenarios: proposals, voting, quorum, majority, and the
//! grace-period expiry of unfinalized proposals.

use treasury_core::governance::{GovernanceContract, ProposalStatus, VoteChoice};

const ADMIN: u64 = 1;
const TOKEN: u64 = 7;
const RECIPIENT: u64 = 8;

const WEEK: u64 = 7 * 24 * 60 * 60;

#[test]
fn test_initialize_governance() {
    let mut c = GovernanceContract::new();
    let member1: u64 = 10;
    let member2: u64 = 11;

    // 51% quorum, 7-day voting, 1-hour grace.
    c.initialize(ADMIN, vec![member1, member2], 51, WEEK, 3600)
        .unwrap();

    assert_eq!(c.get_admin(), Ok(ADMIN));
    assert_eq!(c.get_members().len(), 2);
    let config = c.get_config().unwrap();
    assert_eq!(config.quorum_percentage, 51);
}

#[test]
fn test_create_proposal() {
    let mut c = GovernanceContract::new();
    let member1: u64 = 10;
    c.initialize(ADMIN, vec![member1], 51, WEEK, 3600).unwrap();

    let proposal_id = c
        .create_proposal(member1, 200, TOKEN, 50_000, RECIPIENT, 1000)
        .unwrap();

    assert_eq!(proposal_id, 0);
    let proposal = c.get_proposal(proposal_id).unwrap();
    assert_eq!(proposal.status, ProposalStatus::Active);
    assert_eq!(proposal.amount, 50_000);
}

#[test]
fn test_voting_and_finalization() {
    let mut c = GovernanceContract::new();
    let member1: u64 = 10;
    let member2: u64 = 11;
    let member3: u64 = 12;

    let voting_duration = WEEK;
    let grace_period = 3600;
    c.initialize(
        ADMIN,
        vec![member1, member2, member3],
        51,
        voting_duration,
        grace_period,
    )
    .unwrap();

    let proposal_id = c
        .create_proposal(member1, 200, TOKEN, 50_000, RECIPIENT, 1000)
        .unwrap();

    // Members vote.
    c.vote(member1, proposal_id, VoteChoice::Yes, 1000).unwrap();
    c.vote(member2, proposal_id, VoteChoice::Yes, 1000).unwrap();
    c.vote(member3, proposal_id, VoteChoice::No, 1000).unwrap();

    // Move past the voting period, then finalize.
    let status = c
        .finalize(ADMIN, proposal_id, 1000 + voting_duration + 1)
        .unwrap();
    assert_eq!(status, ProposalStatus::Approved);
}

#[test]
fn test_quorum_not_reached() {
    let mut c = GovernanceContract::new();
    let members: Vec<u64> = vec![10, 11, 12, 13];

    let voting_duration = WEEK;
    c.initialize(ADMIN, members, 51, voting_duration, 3600)
        .unwrap();

    let proposal_id = c
        .create_proposal(10, 201, TOKEN, 10_000, RECIPIENT, 1000)
        .unwrap();

    // Only 1 out of 4 members votes (25% < 51% quorum).
    c.vote(10, proposal_id, VoteChoice::Yes, 1000).unwrap();

    let status = c
        .finalize(ADMIN, proposal_id, 1000 + voting_duration + 1)
        .unwrap();
    assert_eq!(status, ProposalStatus::Rejected);
}

#[test]
fn test_proposal_expiration_live_status() {
    let mut c = GovernanceContract::new();
    let member1: u64 = 10;

    let voting_duration: u64 = 1000;
    let grace_period: u64 = 500;
    c.initialize(ADMIN, vec![member1], 51, voting_duration, grace_period)
        .unwrap();

    let proposal_id = c
        .create_proposal(member1, 202, TOKEN, 1000, RECIPIENT, 1000)
        .unwrap();

    // Still active.
    assert_eq!(
        c.get_proposal_status(proposal_id, 1000),
        Ok(ProposalStatus::Active)
    );

    // Past voting but within the grace period: still active (waiting for
    // finalization).
    assert_eq!(
        c.get_proposal_status(proposal_id, 1000 + voting_duration + 100),
        Ok(ProposalStatus::Active)
    );

    // Past the grace period: expired.
    assert_eq!(
        c.get_proposal_status(proposal_id, 1000 + voting_duration + grace_period + 1),
        Ok(ProposalStatus::Expired)
    );
}

#[test]
fn test_finalize_auto_reject_after_grace_period() {
    let mut c = GovernanceContract::new();
    let member1: u64 = 10;

    let voting_duration: u64 = 1000;
    let grace_period: u64 = 500;
    c.initialize(ADMIN, vec![member1], 51, voting_duration, grace_period)
        .unwrap();

    let proposal_id = c
        .create_proposal(member1, 203, TOKEN, 1000, RECIPIENT, 1000)
        .unwrap();

    // Past the grace period: finalization auto-rejects.
    let status = c
        .finalize(ADMIN, proposal_id, 1000 + voting_duration + grace_period + 1)
        .unwrap();
    assert_eq!(status, ProposalStatus::Rejected);

    let proposal = c.get_proposal(proposal_id).unwrap();
    assert_eq!(proposal.status, ProposalStatus::Rejected);
}
