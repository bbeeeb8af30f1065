//! The records that a session keeps, their mathematical views, and the sums
//! over them that the session's books are stated in.

use vstd::prelude::*;

verus! {

/// A named item subject to a vote.
#[derive(Debug)]
pub struct Proposal {
    /// Name of the proposal.
    pub name: String,
    /// Percentage of all votes needed to win.
    pub threshold: u8,
    /// Votes received so far.
    pub votes: u16,
    /// Whether the tally found the proposal to have won.
    pub won: bool,
}

/// A proposal as contracts speak of it.
pub struct ProposalView {
    pub name: Seq<char>,
    pub threshold: nat,
    pub votes: nat,
    pub won: bool,
}

impl View for Proposal {
    type V = ProposalView;

    open spec fn view(&self) -> ProposalView {
        ProposalView {
            name: self.name@,
            threshold: self.threshold as nat,
            votes: self.votes as nat,
            won: self.won,
        }
    }
}

/// A participant with an allowance of votes.
#[derive(Debug)]
pub struct Voter {
    /// Name of the voter.
    pub name: String,
    /// Votes left to cast.
    pub remaining_votes: u16,
}

/// A voter as contracts speak of it.
pub struct VoterView {
    pub name: Seq<char>,
    pub remaining_votes: nat,
}

impl View for Voter {
    type V = VoterView;

    open spec fn view(&self) -> VoterView {
        VoterView { name: self.name@, remaining_votes: self.remaining_votes as nat }
    }
}

/// The sum of a sequence of counters.
pub open spec fn sum(counters: Seq<nat>) -> nat
    decreases counters.len(),
{
    if counters.len() == 0 {
        0
    } else {
        sum(counters.drop_last()) + counters.last()
    }
}

/// The votes of each proposal, in the order of their ids.
pub open spec fn votes_of(proposals: Seq<ProposalView>) -> Seq<nat> {
    proposals.map_values(|p: ProposalView| p.votes)
}

/// The votes left to each voter, in the order of their ids.
pub open spec fn remaining_of(voters: Seq<VoterView>) -> Seq<nat> {
    voters.map_values(|v: VoterView| v.remaining_votes)
}

/// All votes that the proposals have received.
pub open spec fn total_cast(proposals: Seq<ProposalView>) -> nat {
    sum(votes_of(proposals))
}

/// All votes that the voters still hold.
pub open spec fn total_remaining(voters: Seq<VoterView>) -> nat {
    sum(remaining_of(voters))
}

/// Appending a counter adds it to the sum.
pub proof fn lemma_sum_push(counters: Seq<nat>, x: nat)
    ensures
        sum(counters.push(x)) == sum(counters) + x,
{
    assert(counters.push(x).drop_last() =~= counters);
}

/// Replacing one counter changes the sum by the difference.
pub proof fn lemma_sum_update(counters: Seq<nat>, i: int, x: nat)
    requires
        0 <= i < counters.len(),
    ensures
        sum(counters.update(i, x)) + counters[i] == sum(counters) + x,
    decreases counters.len(),
{
    if i == counters.len() - 1 {
        assert(counters.update(i, x).drop_last() =~= counters.drop_last());
    } else {
        lemma_sum_update(counters.drop_last(), i, x);
        assert(counters.update(i, x).drop_last() =~= counters.drop_last().update(i, x));
    }
}

/// No counter exceeds the sum.
pub proof fn lemma_sum_bounds(counters: Seq<nat>, i: int)
    requires
        0 <= i < counters.len(),
    ensures
        counters[i] <= sum(counters),
    decreases counters.len(),
{
    if i < counters.len() - 1 {
        lemma_sum_bounds(counters.drop_last(), i);
    }
}

/// The sum of the first `i + 1` counters is the sum of the first `i` and
/// the counter at `i`.
pub proof fn lemma_sum_take_step(counters: Seq<nat>, i: int)
    requires
        0 <= i < counters.len(),
    ensures
        sum(counters.take(i + 1)) == sum(counters.take(i)) + counters[i],
{
    assert(counters.take(i + 1).drop_last() =~= counters.take(i));
}

/// The sum of the first `i` counters does not exceed the sum of all.
pub proof fn lemma_sum_prefix_le(counters: Seq<nat>, i: int)
    requires
        0 <= i <= counters.len(),
    ensures
        sum(counters.take(i)) <= sum(counters),
    decreases counters.len() - i,
{
    if i == counters.len() {
        assert(counters.take(i) =~= counters);
    } else {
        lemma_sum_take_step(counters, i);
        lemma_sum_prefix_le(counters, i + 1);
    }
}

/// A new proposal adds its votes to the total cast.
pub proof fn lemma_total_cast_push(proposals: Seq<ProposalView>, p: ProposalView)
    ensures
        total_cast(proposals.push(p)) == total_cast(proposals) + p.votes,
{
    assert(votes_of(proposals.push(p)) =~= votes_of(proposals).push(p.votes));
    lemma_sum_push(votes_of(proposals), p.votes);
}

/// Replacing a proposal changes the total cast by the difference in votes.
pub proof fn lemma_total_cast_update(proposals: Seq<ProposalView>, i: int, p: ProposalView)
    requires
        0 <= i < proposals.len(),
    ensures
        total_cast(proposals.update(i, p)) + proposals[i].votes == total_cast(proposals)
            + p.votes,
        proposals[i].votes <= total_cast(proposals),
{
    assert(votes_of(proposals.update(i, p)) =~= votes_of(proposals).update(i, p.votes));
    lemma_sum_update(votes_of(proposals), i, p.votes);
    lemma_sum_bounds(votes_of(proposals), i);
}

/// A new voter adds their allowance to the total remaining.
pub proof fn lemma_total_remaining_push(voters: Seq<VoterView>, v: VoterView)
    ensures
        total_remaining(voters.push(v)) == total_remaining(voters) + v.remaining_votes,
{
    assert(remaining_of(voters.push(v)) =~= remaining_of(voters).push(v.remaining_votes));
    lemma_sum_push(remaining_of(voters), v.remaining_votes);
}

/// Replacing a voter changes the total remaining by the difference.
pub proof fn lemma_total_remaining_update(voters: Seq<VoterView>, i: int, v: VoterView)
    requires
        0 <= i < voters.len(),
    ensures
        total_remaining(voters.update(i, v)) + voters[i].remaining_votes == total_remaining(
            voters,
        ) + v.remaining_votes,
{
    assert(remaining_of(voters.update(i, v)) =~= remaining_of(voters).update(
        i,
        v.remaining_votes,
    ));
    lemma_sum_update(remaining_of(voters), i, v.remaining_votes);
}

} // verus!
