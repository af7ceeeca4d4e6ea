use vstd::prelude::*;

verus! {

/// Configuration of the ledger: the type that identifies an account, and how
/// two identifiers are compared.
pub trait GovernanceConfig {
    type AccountId: Copy;

    /// Tells whether two account identifiers are the same.
    fn same_account(a: &Self::AccountId, b: &Self::AccountId) -> (r: bool)
        ensures
            r == (*a == *b),
    ;
}

/// A configuration whose accounts are identified by `u64` numbers.
pub struct Runtime;

impl GovernanceConfig for Runtime {
    type AccountId = u64;

    fn same_account(a: &u64, b: &u64) -> (r: bool) {
        *a == *b
    }
}

/// Where a proposal stands in its lifecycle. `Active` is the only state that
/// accepts votes; `Approved` and `Rejected` are terminal.
#[derive(Clone, Copy, PartialEq, Eq, Structural, Debug)]
pub enum ProposalStatus {
    Active,
    Approved,
    Rejected,
}

/// Why an operation on the ledger was refused.
#[derive(Clone, Copy, PartialEq, Eq, Structural, Debug)]
pub enum GovernanceError {
    /// No proposal has the given id.
    ProposalNotFound,
    /// The proposal has already been finalized.
    ProposalNotActive,
    /// The voter has already voted on the proposal.
    AlreadyVoted,
}

/// A governance item: its text, its tally and where it stands.
pub struct Proposal<T: GovernanceConfig> {
    pub description: String,
    pub yes_votes: u32,
    pub no_votes: u32,
    pub status: ProposalStatus,
    pub creator: T::AccountId,
}

/// One vote: who cast it, on which proposal, and which way (`true` is yes).
pub struct VoteRecord<T: GovernanceConfig> {
    pub voter: T::AccountId,
    pub proposal_id: u32,
    pub choice: bool,
}

/// The outcome of finalizing a proposal with the given tally: a strict
/// majority of yes votes approves it, anything else (a tie included) rejects it.
pub open spec fn outcome(yes_votes: u32, no_votes: u32) -> ProposalStatus {
    if yes_votes > no_votes {
        ProposalStatus::Approved
    } else {
        ProposalStatus::Rejected
    }
}

/// How many of `votes` were cast on proposal `pid` with the given choice.
pub open spec fn count_votes<T: GovernanceConfig>(
    votes: Seq<VoteRecord<T>>,
    pid: int,
    choice: bool,
) -> nat
    decreases votes.len(),
{
    if votes.len() == 0 {
        0
    } else {
        let last = votes.last();
        count_votes(votes.drop_last(), pid, choice) + if last.proposal_id == pid
            && last.choice == choice {
            1nat
        } else {
            0nat
        }
    }
}

/// How many of `votes` were cast on proposal `pid`, either way.
pub open spec fn votes_on<T: GovernanceConfig>(votes: Seq<VoteRecord<T>>, pid: int) -> nat {
    count_votes(votes, pid, true) + count_votes(votes, pid, false)
}

/// `p` with one more vote counted for `choice`.
pub open spec fn tallied<T: GovernanceConfig>(p: Proposal<T>, choice: bool) -> Proposal<T> {
    if choice {
        Proposal { yes_votes: (p.yes_votes + 1) as u32, ..p }
    } else {
        Proposal { no_votes: (p.no_votes + 1) as u32, ..p }
    }
}

/// `p` moved to the given status.
pub open spec fn with_status<T: GovernanceConfig>(
    p: Proposal<T>,
    status: ProposalStatus,
) -> Proposal<T> {
    Proposal { status, ..p }
}

/// The ledger: every proposal ever created, indexed by its id, and every vote
/// ever cast.
pub struct GovernancePallet<T: GovernanceConfig> {
    proposals: Vec<Proposal<T>>,
    votes: Vec<VoteRecord<T>>,
    next_proposal_id: u32,
}

impl<T: GovernanceConfig> GovernancePallet<T> {
    /// The proposals; the proposal with id `i` stands at index `i`.
    pub closed spec fn proposals(&self) -> Seq<Proposal<T>> {
        self.proposals@
    }

    /// The vote records, in the order in which they were cast.
    pub closed spec fn votes(&self) -> Seq<VoteRecord<T>> {
        self.votes@
    }

    /// The id that the next proposal will receive.
    pub closed spec fn next_id(&self) -> nat {
        self.next_proposal_id as nat
    }

    /// Whether a proposal with id `pid` exists.
    pub open spec fn has_proposal(&self, pid: u32) -> bool {
        (pid as int) < self.proposals().len()
    }

    /// Whether `voter` has voted on proposal `pid`.
    pub open spec fn has_voted(&self, voter: T::AccountId, pid: u32) -> bool {
        exists|i: int|
            0 <= i < self.votes().len() && (#[trigger] self.votes()[i]).voter == voter
                && self.votes()[i].proposal_id == pid
    }

    /// The ledger's invariant: ids are handed out in order, each vote refers
    /// to an existing proposal, no voter has two votes on one proposal, and
    /// each proposal's tally counts exactly the votes cast on it.
    pub open spec fn wf(&self) -> bool {
        &&& self.next_id() == self.proposals().len()
        &&& self.proposals().len() <= u32::MAX
        &&& forall|i: int|
            0 <= i < self.votes().len() ==> (#[trigger] self.votes()[i]).proposal_id
                < self.proposals().len()
        &&& forall|i: int, j: int|
            0 <= i < j < self.votes().len() ==> !(#[trigger] self.votes()[i].voter
                == #[trigger] self.votes()[j].voter && self.votes()[i].proposal_id
                == self.votes()[j].proposal_id)
        &&& forall|p: int|
            0 <= p < self.proposals().len() ==> {
                &&& (#[trigger] self.proposals()[p]).yes_votes == count_votes(
                    self.votes(),
                    p,
                    true,
                )
                &&& self.proposals()[p].no_votes == count_votes(self.votes(), p, false)
            }
    }

    /// What `vote(voter, pid, _)` answers in this state.
    pub open spec fn vote_result(&self, voter: T::AccountId, pid: u32) -> Result<
        (),
        GovernanceError,
    > {
        if !self.has_proposal(pid) {
            Err(GovernanceError::ProposalNotFound)
        } else if self.proposals()[pid as int].status != ProposalStatus::Active {
            Err(GovernanceError::ProposalNotActive)
        } else if self.has_voted(voter, pid) {
            Err(GovernanceError::AlreadyVoted)
        } else {
            Ok(())
        }
    }

    /// What `finalize_proposal(pid)` answers in this state.
    pub open spec fn finalize_result(&self, pid: u32) -> Result<ProposalStatus, GovernanceError> {
        if !self.has_proposal(pid) {
            Err(GovernanceError::ProposalNotFound)
        } else if self.proposals()[pid as int].status != ProposalStatus::Active {
            Err(GovernanceError::ProposalNotActive)
        } else {
            let p = self.proposals()[pid as int];
            Ok(outcome(p.yes_votes, p.no_votes))
        }
    }
}

/// `post` is the ledger `pre` after `create_proposal(creator, description)`
/// returned `r`: the new proposal takes the next id, with an empty tally.
pub open spec fn create_step<T: GovernanceConfig>(
    pre: GovernancePallet<T>,
    post: GovernancePallet<T>,
    creator: T::AccountId,
    description: Seq<char>,
    r: Result<u32, GovernanceError>,
) -> bool {
    let n = pre.proposals().len();
    &&& r == Ok::<u32, GovernanceError>(n as u32)
    &&& post.proposals().len() == n + 1
    &&& post.proposals().take(n as int) == pre.proposals()
    &&& post.proposals()[n as int].description@ == description
    &&& post.proposals()[n as int].yes_votes == 0
    &&& post.proposals()[n as int].no_votes == 0
    &&& post.proposals()[n as int].status == ProposalStatus::Active
    &&& post.proposals()[n as int].creator == creator
    &&& post.votes() == pre.votes()
}

/// `post` is the ledger `pre` after `vote(voter, pid, choice)` returned `r`:
/// on success the vote is recorded and counted, otherwise nothing changes.
pub open spec fn vote_step<T: GovernanceConfig>(
    pre: GovernancePallet<T>,
    post: GovernancePallet<T>,
    voter: T::AccountId,
    pid: u32,
    choice: bool,
    r: Result<(), GovernanceError>,
) -> bool {
    &&& r == pre.vote_result(voter, pid)
    &&& match r {
        Ok(_) => {
            &&& post.proposals() == pre.proposals().update(
                pid as int,
                tallied(pre.proposals()[pid as int], choice),
            )
            &&& post.votes() == pre.votes().push(
                VoteRecord { voter, proposal_id: pid, choice },
            )
        },
        Err(_) => post == pre,
    }
}

/// `post` is the ledger `pre` after `finalize_proposal(pid)` returned `r`:
/// on success the proposal takes its outcome as status, otherwise nothing
/// changes.
pub open spec fn finalize_step<T: GovernanceConfig>(
    pre: GovernancePallet<T>,
    post: GovernancePallet<T>,
    pid: u32,
    r: Result<ProposalStatus, GovernanceError>,
) -> bool {
    &&& r == pre.finalize_result(pid)
    &&& match r {
        Ok(status) => {
            &&& post.proposals() == pre.proposals().update(
                pid as int,
                with_status(pre.proposals()[pid as int], status),
            )
            &&& post.votes() == pre.votes()
        },
        Err(_) => post == pre,
    }
}

/// Recording one more vote adds one to the count of its proposal and choice,
/// and leaves every other count as it was.
proof fn lemma_count_votes_push<T: GovernanceConfig>(
    votes: Seq<VoteRecord<T>>,
    rec: VoteRecord<T>,
    pid: int,
    choice: bool,
)
    ensures
        count_votes(votes.push(rec), pid, choice) == count_votes(votes, pid, choice) + if rec.proposal_id
            == pid && rec.choice == choice {
            1nat
        } else {
            0nat
        },
{
    assert(votes.push(rec).drop_last() =~= votes);
}

/// A proposal on which no vote was cast counts no vote either way.
proof fn lemma_count_votes_absent<T: GovernanceConfig>(
    votes: Seq<VoteRecord<T>>,
    pid: int,
    choice: bool,
)
    requires
        forall|i: int| 0 <= i < votes.len() ==> (#[trigger] votes[i]).proposal_id != pid,
    ensures
        count_votes(votes, pid, choice) == 0,
    decreases votes.len(),
{
    if votes.len() > 0 {
        let rest = votes.drop_last();
        assert forall|i: int| 0 <= i < rest.len() implies (#[trigger] rest[i]).proposal_id != pid by {
            assert(rest[i] == votes[i]);
        }
        assert(votes[votes.len() - 1].proposal_id != pid);
        lemma_count_votes_absent(rest, pid, choice);
    }
}

impl<T: GovernanceConfig> GovernancePallet<T> {
    /// An empty ledger.
    pub fn new() -> (r: Self)
        ensures
            r.wf(),
            r.proposals().len() == 0,
            r.votes().len() == 0,
    {
        GovernancePallet { proposals: Vec::new(), votes: Vec::new(), next_proposal_id: 0 }
    }

    /// Submits a proposal by `creator` and returns its id: ids are handed out
    /// from 0 upwards, one per call, and never reused.
    pub fn create_proposal(&mut self, creator: T::AccountId, description: String) -> (r: Result<
        u32,
        GovernanceError,
    >)
        requires
            old(self).wf(),
            old(self).proposals().len() < u32::MAX,
        ensures
            final(self).wf(),
            create_step(*old(self), *final(self), creator, description@, r),
    {
        let proposal_id = self.next_proposal_id;
        self.next_proposal_id = self.next_proposal_id + 1;
        let proposal = Proposal {
            description,
            yes_votes: 0,
            no_votes: 0,
            status: ProposalStatus::Active,
            creator,
        };
        self.proposals.push(proposal);
        proof {
            let n = old(self).proposals().len() as int;
            assert(self.votes() == old(self).votes());
            assert(self.proposals@.take(n) =~= old(self).proposals@);
            assert forall|p: int| 0 <= p < self.proposals@.len() implies {
                &&& (#[trigger] self.proposals@[p]).yes_votes == count_votes(self.votes@, p, true)
                &&& self.proposals@[p].no_votes == count_votes(self.votes@, p, false)
            } by {
                if p == n {
                    assert forall|i: int| 0 <= i < self.votes@.len() implies (
                    #[trigger] self.votes@[i]).proposal_id < p by {
                        assert(old(self).votes()[i] == self.votes@[i]);
                    }
                    self.lemma_no_votes_beyond(p);
                }
            }
        }
        Ok(proposal_id)
    }

    /// No vote is counted on an id that no proposal has yet.
    proof fn lemma_no_votes_beyond(&self, pid: int)
        requires
            forall|i: int|
                0 <= i < self.votes@.len() ==> (#[trigger] self.votes@[i]).proposal_id < pid,
        ensures
            count_votes(self.votes@, pid, true) == 0,
            count_votes(self.votes@, pid, false) == 0,
    {
        lemma_count_votes_absent(self.votes@, pid, true);
        lemma_count_votes_absent(self.votes@, pid, false);
    }

    /// Casts `voter`'s vote on proposal `proposal_id` (`true` is yes). Fails,
    /// checking in this order, when the proposal does not exist, when it is
    /// no longer active, and when the voter has already voted on it.
    pub fn vote(&mut self, voter: T::AccountId, proposal_id: u32, vote_type: bool) -> (r: Result<
        (),
        GovernanceError,
    >)
        requires
            old(self).wf(),
            old(self).has_proposal(proposal_id) ==> old(self).proposals()[proposal_id as int].yes_votes
                + old(self).proposals()[proposal_id as int].no_votes < u32::MAX,
        ensures
            final(self).wf(),
            vote_step(*old(self), *final(self), voter, proposal_id, vote_type, r),
    {
        if proposal_id >= self.next_proposal_id {
            return Err(GovernanceError::ProposalNotFound);
        }
        let idx = proposal_id as usize;
        if self.proposals[idx].status != ProposalStatus::Active {
            return Err(GovernanceError::ProposalNotActive);
        }
        if self.has_vote(&voter, proposal_id) {
            return Err(GovernanceError::AlreadyVoted);
        }
        let ghost old_votes = self.votes@;
        let rec = VoteRecord { voter, proposal_id, choice: vote_type };
        self.votes.push(rec);
        if vote_type {
            self.proposals[idx].yes_votes = self.proposals[idx].yes_votes + 1;
        } else {
            self.proposals[idx].no_votes = self.proposals[idx].no_votes + 1;
        }
        proof {
            assert forall|p: int| 0 <= p < self.proposals@.len() implies {
                &&& (#[trigger] self.proposals@[p]).yes_votes == count_votes(self.votes@, p, true)
                &&& self.proposals@[p].no_votes == count_votes(self.votes@, p, false)
            } by {
                lemma_count_votes_push(old_votes, rec, p, true);
                lemma_count_votes_push(old_votes, rec, p, false);
            }
            assert(self.proposals@ =~= old(self).proposals@.update(
                proposal_id as int,
                tallied(old(self).proposals@[proposal_id as int], vote_type),
            ));
        }
        Ok(())
    }

    /// Whether `voter` has already voted on proposal `proposal_id`.
    fn has_vote(&self, voter: &T::AccountId, proposal_id: u32) -> (r: bool)
        ensures
            r == self.has_voted(*voter, proposal_id),
    {
        let mut i: usize = 0;
        while i < self.votes.len()
            invariant
                i <= self.votes@.len(),
                forall|j: int|
                    0 <= j < i ==> !((#[trigger] self.votes@[j]).voter == *voter
                        && self.votes@[j].proposal_id == proposal_id),
            decreases self.votes@.len() - i,
        {
            let rec = &self.votes[i];
            if rec.proposal_id == proposal_id && T::same_account(&rec.voter, voter) {
                proof {
                    assert(self.votes()[i as int].voter == *voter);
                }
                return true;
            }
            i = i + 1;
        }
        false
    }

    /// Looks up the proposal with id `proposal_id`; absence is no error.
    pub fn get_proposal(&self, proposal_id: u32) -> (r: Option<&Proposal<T>>)
        requires
            self.wf(),
        ensures
            r == if self.has_proposal(proposal_id) {
                Some(&self.proposals()[proposal_id as int])
            } else {
                None
            },
    {
        if proposal_id < self.next_proposal_id {
            Some(&self.proposals[proposal_id as usize])
        } else {
            None
        }
    }

    /// Closes an active proposal: it is approved when it has strictly more
    /// yes votes than no votes, and rejected otherwise. Returns the new
    /// status. Fails when the proposal does not exist or is already closed.
    pub fn finalize_proposal(&mut self, proposal_id: u32) -> (r: Result<
        ProposalStatus,
        GovernanceError,
    >)
        requires
            old(self).wf(),
        ensures
            final(self).wf(),
            finalize_step(*old(self), *final(self), proposal_id, r),
    {
        if proposal_id >= self.next_proposal_id {
            return Err(GovernanceError::ProposalNotFound);
        }
        let idx = proposal_id as usize;
        if self.proposals[idx].status != ProposalStatus::Active {
            return Err(GovernanceError::ProposalNotActive);
        }
        let status = if self.proposals[idx].yes_votes > self.proposals[idx].no_votes {
            ProposalStatus::Approved
        } else {
            ProposalStatus::Rejected
        };
        self.proposals[idx].status = status;
        proof {
            assert(self.proposals@ =~= old(self).proposals@.update(
                proposal_id as int,
                with_status(old(self).proposals@[proposal_id as int], status),
            ));
        }
        Ok(status)
    }

    /// How many proposals the ledger holds; this is also the id that the next
    /// proposal will receive.
    pub fn proposal_count(&self) -> (r: u32)
        requires
            self.wf(),
        ensures
            r == self.proposals().len(),
    {
        self.next_proposal_id
    }

    /// The description and the creator of proposal `proposal_id`.
    pub fn get_proposal_details(&self, proposal_id: u32) -> (r: Result<
        (String, T::AccountId),
        GovernanceError,
    >)
        requires
            self.wf(),
        ensures
            match r {
                Ok((description, creator)) => {
                    &&& self.has_proposal(proposal_id)
                    &&& description@ == self.proposals()[proposal_id as int].description@
                    &&& creator == self.proposals()[proposal_id as int].creator
                },
                Err(e) => !self.has_proposal(proposal_id) && e == GovernanceError::ProposalNotFound,
            },
    {
        if proposal_id < self.next_proposal_id {
            let p = &self.proposals[proposal_id as usize];
            Ok((p.description.clone(), p.creator))
        } else {
            Err(GovernanceError::ProposalNotFound)
        }
    }
}

} // verus!
