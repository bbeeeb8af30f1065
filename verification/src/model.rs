//! The voting session as contracts see it: its state, the transitions of
//! that state, and the laws that every transition obeys.

use vstd::prelude::*;
use crate::credential::{AccessRule, OwnershipProof};
use crate::error::VotingError;
use crate::ledger::{
    lemma_sum_bounds, lemma_total_cast_push, lemma_total_cast_update,
    lemma_total_remaining_push, lemma_total_remaining_update, remaining_of, total_cast,
    total_remaining, votes_of, ProposalView, VoterView,
};
use crate::tally::{lemma_percentage_bounds, lemma_zero_threshold_wins, spec_wins};

verus! {

/// A session as contracts speak of it. A proposal's id is its place in
/// `proposals`, a voter's id their place in `voters`.
pub struct SessionView {
    pub is_closed: bool,
    pub votes_per_person: nat,
    pub total_votes: nat,
    pub proposals: Seq<ProposalView>,
    pub voters: Seq<VoterView>,
    pub chairperson_rule: AccessRule,
}

impl SessionView {
    /// A fresh session: open, with no record and no vote.
    pub open spec fn initial(votes_per_person: nat, chairperson_rule: AccessRule) -> SessionView {
        SessionView {
            is_closed: false,
            votes_per_person,
            total_votes: 0,
            proposals: Seq::empty(),
            voters: Seq::empty(),
            chairperson_rule,
        }
    }

    /// The books balance:
    /// the running total is the sum of the proposals' votes; votes cast and
    /// votes still held make up the allowance issued; no voter holds more
    /// than one allowance; before the tally no proposal has won, and after
    /// it each has won exactly if it reached its threshold.
    pub open spec fn wf(self) -> bool {
        &&& self.votes_per_person <= u16::MAX
        &&& self.total_votes <= u16::MAX
        &&& self.total_votes == total_cast(self.proposals)
        &&& self.total_votes + total_remaining(self.voters) == self.votes_per_person
            * self.voters.len()
        &&& forall|i: int|
            0 <= i < self.voters.len() ==> (#[trigger] self.voters[i]).remaining_votes
                <= self.votes_per_person
        &&& !self.is_closed ==> forall|i: int|
            0 <= i < self.proposals.len() ==> !(#[trigger] self.proposals[i]).won
        &&& self.is_closed ==> self.total_votes > 0 && forall|i: int|
            0 <= i < self.proposals.len() ==> (#[trigger] self.proposals[i]).won == spec_wins(
                self.proposals[i].votes,
                self.total_votes,
                self.proposals[i].threshold,
            )
    }

    /// The session with one more proposal, which has no votes and has not won.
    pub open spec fn with_proposal(self, name: Seq<char>, threshold: nat) -> SessionView {
        SessionView {
            proposals: self.proposals.push(
                ProposalView { name, threshold, votes: 0, won: false },
            ),
            ..self
        }
    }

    /// The session with one more voter, who holds a full allowance.
    pub open spec fn with_voter(self, name: Seq<char>) -> SessionView {
        SessionView {
            voters: self.voters.push(
                VoterView { name, remaining_votes: self.votes_per_person },
            ),
            ..self
        }
    }

    /// Why a vote is rejected, if it is. The conditions are held against
    /// the call in this order, and the first that fails decides.
    pub open spec fn vote_rejection(
        self,
        voter_badge: OwnershipProof,
        proposal_id: u64,
        number_of_votes: u16,
    ) -> Option<VotingError> {
        if self.is_closed {
            Some(VotingError::SessionClosed)
        } else if !voter_badge.is_single_voter() || voter_badge.id >= self.voters.len() {
            Some(VotingError::InvalidCredential)
        } else if self.voters[voter_badge.id as int].remaining_votes < number_of_votes {
            Some(
                VotingError::InsufficientAllowance {
                    requested: number_of_votes,
                    remaining: self.voters[voter_badge.id as int].remaining_votes as u16,
                },
            )
        } else if proposal_id >= self.proposals.len() {
            Some(VotingError::UnknownProposal { proposal_id })
        } else if self.total_votes + number_of_votes > u16::MAX {
            Some(VotingError::ArithmeticOverflow)
        } else {
            None
        }
    }

    /// The session after `voter_id` has cast `number_of_votes` for
    /// `proposal_id`: the votes leave the voter's allowance and are added to
    /// the proposal and to the running total.
    pub open spec fn with_votes(
        self,
        voter_id: int,
        proposal_id: int,
        number_of_votes: nat,
    ) -> SessionView {
        SessionView {
            total_votes: self.total_votes + number_of_votes,
            proposals: self.proposals.update(
                proposal_id,
                ProposalView {
                    votes: self.proposals[proposal_id].votes + number_of_votes,
                    ..self.proposals[proposal_id]
                },
            ),
            voters: self.voters.update(
                voter_id,
                VoterView {
                    remaining_votes: (self.voters[voter_id].remaining_votes
                        - number_of_votes) as nat,
                    ..self.voters[voter_id]
                },
            ),
            ..self
        }
    }

    /// The session after one call to vote: with the votes cast if the call
    /// is accepted, unchanged if it is rejected.
    pub open spec fn after_vote(
        self,
        voter_badge: OwnershipProof,
        proposal_id: u64,
        number_of_votes: u16,
    ) -> SessionView {
        if self.vote_rejection(voter_badge, proposal_id, number_of_votes) is None {
            self.with_votes(voter_badge.id as int, proposal_id as int, number_of_votes as nat)
        } else {
            self
        }
    }

    /// The session after a run of calls to vote, each given as the proof
    /// presented, the proposal chosen and the number of votes.
    pub open spec fn after_votes(self, calls: Seq<(OwnershipProof, u64, u16)>) -> SessionView
        decreases calls.len(),
    {
        if calls.len() == 0 {
            self
        } else {
            self.after_votes(calls.drop_last()).after_vote(
                calls.last().0,
                calls.last().1,
                calls.last().2,
            )
        }
    }

    /// The session after the tally: closed, each proposal marked as having
    /// won exactly if its rounded share of all votes reaches its threshold.
    pub open spec fn tallied(self) -> SessionView {
        SessionView {
            is_closed: true,
            proposals: Seq::new(
                self.proposals.len(),
                |i: int|
                    ProposalView {
                        won: spec_wins(
                            self.proposals[i].votes,
                            self.total_votes,
                            self.proposals[i].threshold,
                        ),
                        ..self.proposals[i]
                    },
            ),
            ..self
        }
    }

    /// Whether `next` can come after `self` in the life of one session.
    /// A closed session stays as it is. An open one keeps its allowance and
    /// its rule, keeps every record under its id, name and threshold, never
    /// takes a vote back from a proposal or from the total, never gives a
    /// vote back to a voter, never reopens, and never withdraws a win.
    pub open spec fn evolves_to(self, next: SessionView) -> bool {
        &&& next.votes_per_person == self.votes_per_person
        &&& next.chairperson_rule == self.chairperson_rule
        &&& self.is_closed ==> next == self
        &&& self.total_votes <= next.total_votes
        &&& self.voters.len() <= next.voters.len()
        &&& forall|i: int|
            0 <= i < self.voters.len() ==> {
                &&& (#[trigger] next.voters[i]).name == self.voters[i].name
                &&& next.voters[i].remaining_votes <= self.voters[i].remaining_votes
            }
        &&& self.proposals.len() <= next.proposals.len()
        &&& forall|i: int|
            0 <= i < self.proposals.len() ==> {
                &&& (#[trigger] next.proposals[i]).name == self.proposals[i].name
                &&& next.proposals[i].threshold == self.proposals[i].threshold
                &&& self.proposals[i].votes <= next.proposals[i].votes
                &&& self.proposals[i].won ==> next.proposals[i].won
            }
    }
}

/// A fresh session's books balance.
pub proof fn lemma_initial_wf(votes_per_person: nat, chairperson_rule: AccessRule)
    requires
        votes_per_person <= u16::MAX,
    ensures
        SessionView::initial(votes_per_person, chairperson_rule).wf(),
{
    let s = SessionView::initial(votes_per_person, chairperson_rule);
    assert(votes_of(s.proposals) =~= Seq::<nat>::empty());
    assert(remaining_of(s.voters) =~= Seq::<nat>::empty());
}

/// Registering a proposal in an open session keeps the books balanced and
/// is a step in the session's life.
pub proof fn lemma_with_proposal_wf(s: SessionView, name: Seq<char>, threshold: nat)
    requires
        s.wf(),
        !s.is_closed,
    ensures
        s.with_proposal(name, threshold).wf(),
        s.evolves_to(s.with_proposal(name, threshold)),
{
    let p = ProposalView { name, threshold, votes: 0, won: false };
    lemma_total_cast_push(s.proposals, p);
}

/// Admitting a voter to an open session keeps the books balanced and is a
/// step in the session's life.
pub proof fn lemma_with_voter_wf(s: SessionView, name: Seq<char>)
    requires
        s.wf(),
        !s.is_closed,
    ensures
        s.with_voter(name).wf(),
        s.evolves_to(s.with_voter(name)),
{
    let v = VoterView { name, remaining_votes: s.votes_per_person };
    lemma_total_remaining_push(s.voters, v);
    let k: int = s.votes_per_person as int;
    let n: int = s.voters.len() as int;
    assert(k * (n + 1) == k * n + k) by (nonlinear_arith);
}

/// An accepted vote keeps the books balanced: afterwards the running total
/// is again the sum of the proposals' votes, the voter holds exactly that
/// many votes fewer, and nobody else's allowance has changed.
pub proof fn lemma_with_votes_wf(
    s: SessionView,
    voter_badge: OwnershipProof,
    proposal_id: u64,
    number_of_votes: u16,
)
    requires
        s.wf(),
        s.vote_rejection(voter_badge, proposal_id, number_of_votes) is None,
    ensures
        s.with_votes(voter_badge.id as int, proposal_id as int, number_of_votes as nat).wf(),
        s.evolves_to(
            s.with_votes(voter_badge.id as int, proposal_id as int, number_of_votes as nat),
        ),
        s.with_votes(
            voter_badge.id as int,
            proposal_id as int,
            number_of_votes as nat,
        ).total_votes == total_cast(
            s.with_votes(
                voter_badge.id as int,
                proposal_id as int,
                number_of_votes as nat,
            ).proposals,
        ),
        s.proposals[proposal_id as int].votes + number_of_votes <= u16::MAX,
{
    let vid: int = voter_badge.id as int;
    let pid: int = proposal_id as int;
    let next = s.with_votes(vid, pid, number_of_votes as nat);
    lemma_total_cast_update(s.proposals, pid, next.proposals[pid]);
    lemma_total_remaining_update(s.voters, vid, next.voters[vid]);
    assert(s.voters[vid].remaining_votes <= s.votes_per_person);
    assert forall|i: int| 0 <= i < next.voters.len() implies (#[trigger] next.voters[i]).remaining_votes
        <= next.votes_per_person by {
        assert(s.voters[i].remaining_votes <= s.votes_per_person);
    }
    assert forall|i: int| 0 <= i < next.proposals.len() implies !(#[trigger] next.proposals[i]).won by {
        assert(!s.proposals[i].won);
    }
}

/// After any run of calls to vote, accepted or rejected, the running total
/// is the sum of the proposals' votes, the books balance, and no voter holds
/// more votes than before the run.
pub proof fn lemma_votes_keep_books(s: SessionView, calls: Seq<(OwnershipProof, u64, u16)>)
    requires
        s.wf(),
    ensures
        s.after_votes(calls).wf(),
        s.after_votes(calls).total_votes == total_cast(s.after_votes(calls).proposals),
        s.evolves_to(s.after_votes(calls)),
    decreases calls.len(),
{
    if calls.len() > 0 {
        let before = s.after_votes(calls.drop_last());
        let call = calls.last();
        lemma_votes_keep_books(s, calls.drop_last());
        if before.vote_rejection(call.0, call.1, call.2) is None {
            lemma_with_votes_wf(before, call.0, call.1, call.2);
        }
        lemma_evolves_transitive(s, before, before.after_vote(call.0, call.1, call.2));
    }
}

/// The tally of an open session in which a vote has been cast keeps the
/// books balanced, closes the session, and is a step in its life.
pub proof fn lemma_tallied_wf(s: SessionView)
    requires
        s.wf(),
        !s.is_closed,
        s.total_votes > 0,
    ensures
        s.tallied().wf(),
        s.tallied().is_closed,
        s.evolves_to(s.tallied()),
{
    let next = s.tallied();
    assert(votes_of(next.proposals) =~= votes_of(s.proposals));
}

/// A session may stay as it is.
pub proof fn lemma_evolves_reflexive(s: SessionView)
    ensures
        s.evolves_to(s),
{
}

/// Steps in a session's life compose: over any run of operations a voter's
/// allowance never grows, a proposal's votes and the total never shrink, a
/// win is never withdrawn, and a closed session is never reopened.
pub proof fn lemma_evolves_transitive(a: SessionView, b: SessionView, c: SessionView)
    requires
        a.evolves_to(b),
        b.evolves_to(c),
    ensures
        a.evolves_to(c),
{
    if !a.is_closed {
        assert forall|i: int| 0 <= i < a.voters.len() implies {
            &&& (#[trigger] c.voters[i]).name == a.voters[i].name
            &&& c.voters[i].remaining_votes <= a.voters[i].remaining_votes
        } by {
            let _ = b.voters[i];
        }
        assert forall|i: int| 0 <= i < a.proposals.len() implies {
            &&& (#[trigger] c.proposals[i]).name == a.proposals[i].name
            &&& c.proposals[i].threshold == a.proposals[i].threshold
            &&& a.proposals[i].votes <= c.proposals[i].votes
            &&& a.proposals[i].won ==> c.proposals[i].won
        } by {
            let _ = b.proposals[i];
        }
    }
}

/// The session closes at most once: whatever comes after a closed session
/// is that same closed session.
pub proof fn lemma_closed_is_final(s: SessionView, next: SessionView)
    requires
        s.is_closed,
        s.evolves_to(next),
    ensures
        next == s,
        next.is_closed,
{
}

/// In a tallied session a proposal with a threshold of zero has won, also
/// one that received no vote.
pub proof fn lemma_zero_threshold_has_won(s: SessionView, proposal_id: int)
    requires
        s.wf(),
        s.is_closed,
        0 <= proposal_id < s.proposals.len(),
        s.proposals[proposal_id].threshold == 0,
    ensures
        s.proposals[proposal_id].won,
{
    lemma_zero_threshold_wins(s.proposals[proposal_id].votes, s.total_votes);
}

/// In a tallied session no proposal with a threshold above one hundred has
/// won: thresholds are taken as given, and no share exceeds the whole.
pub proof fn lemma_threshold_above_hundred_has_lost(s: SessionView, proposal_id: int)
    requires
        s.wf(),
        s.is_closed,
        0 <= proposal_id < s.proposals.len(),
        s.proposals[proposal_id].threshold > 100,
    ensures
        !s.proposals[proposal_id].won,
{
    lemma_sum_bounds(votes_of(s.proposals), proposal_id);
    lemma_percentage_bounds(s.proposals[proposal_id].votes, s.total_votes);
}

} // verus!
