use vstd::prelude::*;

use crate::governance::{
    count_votes, create_step, finalize_step, outcome, vote_step, votes_on, GovernanceConfig,
    GovernanceError, GovernancePallet, ProposalStatus,
};

verus! {

/// Two proposals created one after the other receive consecutive ids: the
/// first gets the number of proposals that existed before it, the second the
/// next number. Ids therefore strictly increase and are never handed out twice.
pub proof fn lemma_proposal_ids_consecutive<T: GovernanceConfig>(
    s0: GovernancePallet<T>,
    s1: GovernancePallet<T>,
    s2: GovernancePallet<T>,
    creator1: T::AccountId,
    description1: Seq<char>,
    r1: Result<u32, GovernanceError>,
    creator2: T::AccountId,
    description2: Seq<char>,
    r2: Result<u32, GovernanceError>,
)
    requires
        s0.wf(),
        s1.wf(),
        create_step(s0, s1, creator1, description1, r1),
        create_step(s1, s2, creator2, description2, r2),
    ensures
        r1 == Ok::<u32, GovernanceError>(s0.proposals().len() as u32),
        r2 == Ok::<u32, GovernanceError>((s0.proposals().len() + 1) as u32),
        s2.proposals().len() == s0.proposals().len() + 2,
{
}

/// Only creating a proposal allocates an id: voting and finalizing leave the
/// number of proposals as it was.
pub proof fn lemma_only_creation_allocates_ids<T: GovernanceConfig>(
    s0: GovernancePallet<T>,
    s1: GovernancePallet<T>,
    voter: T::AccountId,
    pid: u32,
    choice: bool,
    rv: Result<(), GovernanceError>,
    rf: Result<ProposalStatus, GovernanceError>,
)
    ensures
        vote_step(s0, s1, voter, pid, choice, rv) ==> s1.proposals().len()
            == s0.proposals().len(),
        finalize_step(s0, s1, pid, rf) ==> s1.proposals().len() == s0.proposals().len(),
{
}

/// A ledger holds at most one vote record for each voter and proposal.
pub proof fn lemma_at_most_one_vote_record<T: GovernanceConfig>(
    s: GovernancePallet<T>,
    i: int,
    j: int,
)
    requires
        s.wf(),
        0 <= i < s.votes().len(),
        0 <= j < s.votes().len(),
        s.votes()[i].voter == s.votes()[j].voter,
        s.votes()[i].proposal_id == s.votes()[j].proposal_id,
    ensures
        i == j,
{
    if i < j {
        assert(!(s.votes()[i].voter == s.votes()[j].voter && s.votes()[i].proposal_id
            == s.votes()[j].proposal_id));
    } else if j < i {
        assert(!(s.votes()[j].voter == s.votes()[i].voter && s.votes()[j].proposal_id
            == s.votes()[i].proposal_id));
    }
}

/// Once a voter's vote on a proposal has been accepted, a second vote by the
/// same voter on the same proposal fails with `AlreadyVoted`, whichever way it
/// is cast, and changes nothing.
pub proof fn lemma_second_vote_rejected<T: GovernanceConfig>(
    s0: GovernancePallet<T>,
    s1: GovernancePallet<T>,
    s2: GovernancePallet<T>,
    voter: T::AccountId,
    pid: u32,
    choice1: bool,
    choice2: bool,
    r2: Result<(), GovernanceError>,
)
    requires
        s0.wf(),
        vote_step(s0, s1, voter, pid, choice1, Ok(())),
        vote_step(s1, s2, voter, pid, choice2, r2),
    ensures
        r2 == Err::<(), GovernanceError>(GovernanceError::AlreadyVoted),
        s2 == s1,
{
    let n = s0.votes().len() as int;
    assert(s1.votes()[n].voter == voter && s1.votes()[n].proposal_id == pid);
    assert(s1.has_voted(voter, pid));
}

/// A voter who has voted on a proposal can never vote on it again: every
/// further attempt fails.
pub proof fn lemma_voted_never_votes_again<T: GovernanceConfig>(
    s: GovernancePallet<T>,
    voter: T::AccountId,
    pid: u32,
)
    requires
        s.wf(),
        s.has_voted(voter, pid),
    ensures
        s.vote_result(voter, pid) is Err,
{
    let i = choose|i: int|
        0 <= i < s.votes().len() && (#[trigger] s.votes()[i]).voter == voter
            && s.votes()[i].proposal_id == pid;
    assert(s.votes()[i].proposal_id < s.proposals().len());
}

/// A proposal's tally counts exactly the votes recorded on it.
pub proof fn lemma_tally_counts_votes<T: GovernanceConfig>(s: GovernancePallet<T>, pid: u32)
    requires
        s.wf(),
        s.has_proposal(pid),
    ensures
        s.proposals()[pid as int].yes_votes + s.proposals()[pid as int].no_votes == votes_on(
            s.votes(),
            pid as int,
        ),
{
    assert(s.proposals()[pid as int].yes_votes == count_votes(s.votes(), pid as int, true));
}

/// Each accepted vote adds exactly one to the tally of its proposal, so after
/// `n` accepted votes the yes and no votes add up to `n`.
pub proof fn lemma_accepted_vote_adds_one<T: GovernanceConfig>(
    s0: GovernancePallet<T>,
    s1: GovernancePallet<T>,
    voter: T::AccountId,
    pid: u32,
    choice: bool,
)
    requires
        s0.wf(),
        s1.wf(),
        vote_step(s0, s1, voter, pid, choice, Ok(())),
    ensures
        s1.proposals()[pid as int].yes_votes + s1.proposals()[pid as int].no_votes
            == s0.proposals()[pid as int].yes_votes + s0.proposals()[pid as int].no_votes + 1,
        votes_on(s1.votes(), pid as int) == votes_on(s0.votes(), pid as int) + 1,
{
    assert(s1.votes().drop_last() =~= s0.votes());
    lemma_tally_counts_votes(s0, pid);
    lemma_tally_counts_votes(s1, pid);
}

/// Finalizing depends on the tally alone: two active proposals with the same
/// yes and no counts, in any two ledgers, finalize to the same status, which
/// is `Approved` exactly when the yes votes are strictly more.
pub proof fn lemma_finalize_depends_on_tally<T: GovernanceConfig>(
    s: GovernancePallet<T>,
    p: u32,
    t: GovernancePallet<T>,
    q: u32,
)
    requires
        s.has_proposal(p),
        t.has_proposal(q),
        s.proposals()[p as int].status == ProposalStatus::Active,
        t.proposals()[q as int].status == ProposalStatus::Active,
        s.proposals()[p as int].yes_votes == t.proposals()[q as int].yes_votes,
        s.proposals()[p as int].no_votes == t.proposals()[q as int].no_votes,
    ensures
        s.finalize_result(p) == t.finalize_result(q),
        s.finalize_result(p) == Ok::<ProposalStatus, GovernanceError>(
            if s.proposals()[p as int].yes_votes > s.proposals()[p as int].no_votes {
                ProposalStatus::Approved
            } else {
                ProposalStatus::Rejected
            },
        ),
{
}

/// Finalizing an active proposal twice succeeds the first time and fails with
/// `ProposalNotActive` the second time, leaving the ledger unchanged.
pub proof fn lemma_finalize_twice<T: GovernanceConfig>(
    s0: GovernancePallet<T>,
    s1: GovernancePallet<T>,
    s2: GovernancePallet<T>,
    pid: u32,
    r1: Result<ProposalStatus, GovernanceError>,
    r2: Result<ProposalStatus, GovernanceError>,
)
    requires
        s0.has_proposal(pid),
        s0.proposals()[pid as int].status == ProposalStatus::Active,
        finalize_step(s0, s1, pid, r1),
        finalize_step(s1, s2, pid, r2),
    ensures
        r1 == Ok::<ProposalStatus, GovernanceError>(
            outcome(s0.proposals()[pid as int].yes_votes, s0.proposals()[pid as int].no_votes),
        ),
        r2 == Err::<ProposalStatus, GovernanceError>(GovernanceError::ProposalNotActive),
        s2 == s1,
{
}

/// A finalized proposal is frozen: every vote on it and every further
/// finalization fails with `ProposalNotActive` and changes nothing, so its
/// status and its tally never change again.
pub proof fn lemma_finalized_proposal_frozen<T: GovernanceConfig>(
    s0: GovernancePallet<T>,
    s1: GovernancePallet<T>,
    pid: u32,
    voter: T::AccountId,
    choice: bool,
    rv: Result<(), GovernanceError>,
    rf: Result<ProposalStatus, GovernanceError>,
)
    requires
        s0.has_proposal(pid),
        s0.proposals()[pid as int].status != ProposalStatus::Active,
    ensures
        vote_step(s0, s1, voter, pid, choice, rv) ==> rv == Err::<(), GovernanceError>(
            GovernanceError::ProposalNotActive,
        ) && s1 == s0,
        finalize_step(s0, s1, pid, rf) ==> rf == Err::<ProposalStatus, GovernanceError>(
            GovernanceError::ProposalNotActive,
        ) && s1 == s0,
{
}

/// A vote cast right after a proposal was finalized fails with
/// `ProposalNotActive`, and the tally stays as it was when it was finalized.
pub proof fn lemma_vote_after_finalize<T: GovernanceConfig>(
    s0: GovernancePallet<T>,
    s1: GovernancePallet<T>,
    s2: GovernancePallet<T>,
    pid: u32,
    status: ProposalStatus,
    voter: T::AccountId,
    choice: bool,
    r: Result<(), GovernanceError>,
)
    requires
        finalize_step(s0, s1, pid, Ok(status)),
        vote_step(s1, s2, voter, pid, choice, r),
    ensures
        r == Err::<(), GovernanceError>(GovernanceError::ProposalNotActive),
        s2 == s1,
        s2.proposals()[pid as int].yes_votes == s0.proposals()[pid as int].yes_votes,
        s2.proposals()[pid as int].no_votes == s0.proposals()[pid as int].no_votes,
{
}

/// Creating a proposal leaves every existing proposal, with its status and
/// tally, as it was.
pub proof fn lemma_creation_keeps_proposals<T: GovernanceConfig>(
    s0: GovernancePallet<T>,
    s1: GovernancePallet<T>,
    creator: T::AccountId,
    description: Seq<char>,
    r: Result<u32, GovernanceError>,
    pid: u32,
)
    requires
        create_step(s0, s1, creator, description, r),
        s0.has_proposal(pid),
    ensures
        s1.proposals()[pid as int] == s0.proposals()[pid as int],
{
    assert(s1.proposals().take(s0.proposals().len() as int)[pid as int] == s1.proposals()[pid as int]);
}

} // verus!
