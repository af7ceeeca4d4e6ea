use governance::{GovernanceError, GovernancePallet, ProposalStatus, Runtime};

#[test]
fn test_governance_should_work() {
    let alice = 1u64;
    let bob = 2u64;
    let charlie = 3u64;

    let mut governance = GovernancePallet::<Runtime>::new();

    // Create a proposal
    let proposal_id = governance
        .create_proposal(alice, "Increase validator rewards".to_string())
        .unwrap();

    let (description, creator) = governance.get_proposal_details(proposal_id).unwrap();
    assert_eq!(description, "Increase validator rewards");
    assert_eq!(creator, alice);

    // Cast votes
    governance.vote(alice, proposal_id, true).unwrap(); // Yes vote
    governance.vote(bob, proposal_id, true).unwrap(); // Yes vote
    governance.vote(charlie, proposal_id, false).unwrap(); // No vote

    // Check proposal status before finalization
    let proposal = governance.get_proposal(proposal_id).unwrap();
    assert_eq!(proposal.yes_votes, 2);
    assert_eq!(proposal.no_votes, 1);

    // Finalize proposal
    let status = governance.finalize_proposal(proposal_id).unwrap();
    assert!(matches!(status, ProposalStatus::Approved));

    // Check proposal is now approved
    let finalized_proposal = governance.get_proposal(proposal_id).unwrap();
    assert!(matches!(
        finalized_proposal.status,
        ProposalStatus::Approved
    ));
}

#[test]
fn proposal_ids_start_at_zero_and_increase() {
    let mut g = GovernancePallet::<Runtime>::new();
    assert_eq!(g.create_proposal(1, "a".to_string()), Ok(0));
    assert_eq!(g.create_proposal(2, "b".to_string()), Ok(1));
    g.vote(1, 0, true).unwrap();
    g.finalize_proposal(0).unwrap();
    assert_eq!(g.create_proposal(1, "c".to_string()), Ok(2));
    let (d, c) = g.get_proposal_details(1).unwrap();
    assert_eq!(d, "b");
    assert_eq!(c, 2);
}

#[test]
fn second_vote_is_rejected_either_way() {
    let mut g = GovernancePallet::<Runtime>::new();
    let id = g.create_proposal(7, "x".to_string()).unwrap();
    assert_eq!(g.vote(5, id, true), Ok(()));
    assert_eq!(g.vote(5, id, true), Err(GovernanceError::AlreadyVoted));
    assert_eq!(g.vote(5, id, false), Err(GovernanceError::AlreadyVoted));
    let p = g.get_proposal(id).unwrap();
    assert_eq!(p.yes_votes, 1);
    assert_eq!(p.no_votes, 0);
}

#[test]
fn same_voter_may_vote_on_different_proposals() {
    let mut g = GovernancePallet::<Runtime>::new();
    let a = g.create_proposal(1, "a".to_string()).unwrap();
    let b = g.create_proposal(1, "b".to_string()).unwrap();
    assert_eq!(g.vote(1, a, true), Ok(()));
    assert_eq!(g.vote(1, b, false), Ok(()));
    assert_eq!(g.get_proposal(a).unwrap().yes_votes, 1);
    assert_eq!(g.get_proposal(b).unwrap().no_votes, 1);
}

#[test]
fn tally_counts_every_accepted_vote() {
    let mut g = GovernancePallet::<Runtime>::new();
    let id = g.create_proposal(1, "t".to_string()).unwrap();
    for voter in 0..10u64 {
        g.vote(voter, id, voter % 3 == 0).unwrap();
    }
    let _ = g.vote(4, id, true);
    let p = g.get_proposal(id).unwrap();
    assert_eq!(p.yes_votes + p.no_votes, 10);
    assert_eq!(p.yes_votes, 4);
    assert_eq!(p.no_votes, 6);
}

#[test]
fn finalize_approves_on_strict_majority() {
    let mut g = GovernancePallet::<Runtime>::new();
    let id = g.create_proposal(1, "m".to_string()).unwrap();
    g.vote(1, id, true).unwrap();
    g.vote(2, id, true).unwrap();
    g.vote(3, id, false).unwrap();
    assert_eq!(g.finalize_proposal(id), Ok(ProposalStatus::Approved));
}

#[test]
fn finalize_rejects_on_tie() {
    let mut g = GovernancePallet::<Runtime>::new();
    let id = g.create_proposal(1, "tie".to_string()).unwrap();
    g.vote(1, id, true).unwrap();
    g.vote(2, id, false).unwrap();
    assert_eq!(g.finalize_proposal(id), Ok(ProposalStatus::Rejected));
}

#[test]
fn finalize_rejects_on_minority() {
    let mut g = GovernancePallet::<Runtime>::new();
    let id = g.create_proposal(1, "few".to_string()).unwrap();
    g.vote(1, id, true).unwrap();
    g.vote(2, id, false).unwrap();
    g.vote(3, id, false).unwrap();
    assert_eq!(g.finalize_proposal(id), Ok(ProposalStatus::Rejected));
}

#[test]
fn finalize_with_no_votes_rejects() {
    let mut g = GovernancePallet::<Runtime>::new();
    let id = g.create_proposal(1, "empty".to_string()).unwrap();
    assert_eq!(g.finalize_proposal(id), Ok(ProposalStatus::Rejected));
    assert_eq!(g.get_proposal(id).unwrap().status, ProposalStatus::Rejected);
}

#[test]
fn finalize_twice_fails_the_second_time() {
    let mut g = GovernancePallet::<Runtime>::new();
    let id = g.create_proposal(1, "twice".to_string()).unwrap();
    g.vote(2, id, true).unwrap();
    assert_eq!(g.finalize_proposal(id), Ok(ProposalStatus::Approved));
    assert_eq!(
        g.finalize_proposal(id),
        Err(GovernanceError::ProposalNotActive)
    );
    assert_eq!(g.get_proposal(id).unwrap().status, ProposalStatus::Approved);
}

#[test]
fn vote_after_finalize_fails_and_keeps_tally() {
    let mut g = GovernancePallet::<Runtime>::new();
    let id = g
        .create_proposal(1, "Increase validator rewards".to_string())
        .unwrap();
    g.vote(1, id, true).unwrap();
    g.vote(2, id, true).unwrap();
    g.vote(3, id, false).unwrap();
    let p = g.get_proposal(id).unwrap();
    assert_eq!((p.yes_votes, p.no_votes), (2, 1));
    assert_eq!(g.finalize_proposal(id), Ok(ProposalStatus::Approved));
    assert_eq!(g.vote(4, id, true), Err(GovernanceError::ProposalNotActive));
    assert_eq!(g.vote(1, id, false), Err(GovernanceError::ProposalNotActive));
    let p = g.get_proposal(id).unwrap();
    assert_eq!((p.yes_votes, p.no_votes), (2, 1));
}

#[test]
fn unknown_proposal_id_is_not_found() {
    let mut g = GovernancePallet::<Runtime>::new();
    g.create_proposal(1, "only".to_string()).unwrap();
    assert_eq!(g.vote(1, 9999, true), Err(GovernanceError::ProposalNotFound));
    assert_eq!(
        g.finalize_proposal(9999),
        Err(GovernanceError::ProposalNotFound)
    );
    assert_eq!(
        g.get_proposal_details(9999),
        Err(GovernanceError::ProposalNotFound)
    );
    assert!(g.get_proposal(9999).is_none());
}

#[test]
fn empty_ledger_has_no_proposals() {
    let mut g = GovernancePallet::<Runtime>::new();
    assert!(g.get_proposal(0).is_none());
    assert_eq!(g.vote(1, 0, true), Err(GovernanceError::ProposalNotFound));
}

#[test]
fn creator_may_vote_on_own_proposal() {
    let mut g = GovernancePallet::<Runtime>::new();
    let id = g.create_proposal(42, "self".to_string()).unwrap();
    assert_eq!(g.vote(42, id, true), Ok(()));
    assert_eq!(g.finalize_proposal(id), Ok(ProposalStatus::Approved));
}

#[test]
fn not_active_is_reported_before_already_voted() {
    let mut g = GovernancePallet::<Runtime>::new();
    let id = g.create_proposal(1, "order".to_string()).unwrap();
    g.vote(1, id, false).unwrap();
    g.finalize_proposal(id).unwrap();
    assert_eq!(g.vote(1, id, false), Err(GovernanceError::ProposalNotActive));
}

#[test]
fn proposal_count_follows_creations() {
    let mut g = GovernancePallet::<Runtime>::new();
    assert_eq!(g.proposal_count(), 0);
    g.create_proposal(1, "a".to_string()).unwrap();
    g.vote(1, 0, true).unwrap();
    g.finalize_proposal(0).unwrap();
    assert_eq!(g.proposal_count(), 1);
}
