//! The voting session and its operations. Each operation either carries out
//! one transition of the session's state or rejects the call and changes
//! nothing.

use vstd::prelude::*;
use crate::credential::{AccessRule, Credential, CredentialKind, Method, OwnershipProof};
use crate::error::VotingError;
use crate::ledger::{
    lemma_sum_prefix_le, lemma_sum_take_step, remaining_of, sum, total_cast, total_remaining,
    votes_of, Proposal, ProposalView, Voter, VoterView,
};
use crate::model::{
    lemma_initial_wf, lemma_tallied_wf, lemma_with_proposal_wf, lemma_with_voter_wf,
    lemma_with_votes_wf, SessionView,
};
use crate::tally::{meets_threshold, spec_wins};

verus! {

/// A voting session. It owns the proposal and voter records; nothing
/// outside it can change them but through the operations below.
pub struct ProposalVoting {
    /// The session's own authority over its records. It is never handed out.
    admin_badge: Credential,
    /// The rule that guards the privileged operations.
    chairperson_rule: AccessRule,
    /// Whether the tally has taken place.
    is_closed: bool,
    /// The allowance of each voter.
    votes_per_person: u16,
    /// All votes accepted so far.
    total_votes: u16,
    /// The proposals, each at the place of its id.
    proposals: Vec<Proposal>,
    /// The voters, each at the place of their id.
    voters: Vec<Voter>,
}

impl View for ProposalVoting {
    type V = SessionView;

    closed spec fn view(&self) -> SessionView {
        SessionView {
            is_closed: self.is_closed,
            votes_per_person: self.votes_per_person as nat,
            total_votes: self.total_votes as nat,
            proposals: self.proposals@.map_values(|p: Proposal| p@),
            voters: self.voters@.map_values(|v: Voter| v@),
            chairperson_rule: self.chairperson_rule,
        }
    }
}

impl ProposalVoting {
    /// The session's books balance, and it holds its own authority.
    pub closed spec fn wf(&self) -> bool {
        &&& self@.wf()
        &&& self.admin_badge@.kind == CredentialKind::Admin
    }

    /// What holds of every session that an operation has returned: its
    /// books balance. In particular the running total is the sum of the
    /// proposals' votes, whatever votes were accepted before.
    pub proof fn lemma_books_balance(&self)
        requires
            self.wf(),
        ensures
            self@.wf(),
            self@.total_votes == total_cast(self@.proposals),
    {
    }

    /// Opens a session in which each voter may cast `votes_per_person`
    /// votes, and mints the chairperson's credential, which the privileged
    /// operations then require.
    pub fn instantiate_proposal_voting(votes_per_person: u16) -> (r: (ProposalVoting, Credential))
        ensures
            r.0.wf(),
            r.0@ == SessionView::initial(
                votes_per_person as nat,
                AccessRule::Require(CredentialKind::Chairperson),
            ),
            r.1@ == (OwnershipProof { kind: CredentialKind::Chairperson, amount: 1, id: 0 }),
    {
        let chairperson_badge = Credential::mint(CredentialKind::Chairperson, 0);
        let session = Self::instantiate_custom_access_proposal_voting(
            votes_per_person,
            AccessRule::Require(chairperson_badge.kind()),
        );
        (session, chairperson_badge)
    }

    /// Opens a session in which each voter may cast `votes_per_person`
    /// votes and `chairperson_access_rule` guards the privileged operations.
    pub fn instantiate_custom_access_proposal_voting(
        votes_per_person: u16,
        chairperson_access_rule: AccessRule,
    ) -> (session: ProposalVoting)
        ensures
            session.wf(),
            session@ == SessionView::initial(votes_per_person as nat, chairperson_access_rule),
    {
        let session = ProposalVoting {
            admin_badge: Credential::mint(CredentialKind::Admin, 0),
            chairperson_rule: chairperson_access_rule,
            is_closed: false,
            votes_per_person,
            total_votes: 0,
            proposals: Vec::new(),
            voters: Vec::new(),
        };
        proof {
            lemma_initial_wf(votes_per_person as nat, chairperson_access_rule);
            assert(session@.proposals =~= Seq::<ProposalView>::empty());
            assert(session@.voters =~= Seq::<VoterView>::empty());
        }
        session
    }

    /// The rule that a caller of `method` has to pass: the chairperson's
    /// rule for the privileged operations, none for the others.
    pub fn access_rule(&self, method: Method) -> (rule: AccessRule)
        ensures
            rule == if method.is_privileged() {
                self@.chairperson_rule
            } else {
                AccessRule::AllowAll
            },
    {
        match method {
            Method::AddProposal | Method::AddVoter | Method::WinningProposals => {
                self.chairperson_rule
            },
            Method::Vote | Method::CheckWinner | Method::CheckResults => AccessRule::AllowAll,
        }
    }

    /// Decides whether a caller who presents `presented` may enter `method`.
    /// The session's operations do not ask for a proof themselves: whoever
    /// hosts the session asks here first.
    pub fn is_authorized(&self, method: Method, presented: Option<OwnershipProof>) -> (allowed:
        bool)
        ensures
            allowed == if method.is_privileged() {
                self@.chairperson_rule.spec_permits(presented)
            } else {
                true
            },
    {
        self.access_rule(method).permits(presented)
    }

    /// Registers a proposal with no votes and returns its id. A closed
    /// session takes no more proposals.
    pub fn add_proposal(&mut self, name: String, threshold: u8) -> (r: Result<u64, VotingError>)
        requires
            old(self).wf(),
        ensures
            final(self).wf(),
            old(self)@.evolves_to(final(self)@),
            old(self)@.is_closed ==> r == Err::<u64, VotingError>(VotingError::SessionClosed)
                && final(self)@ == old(self)@,
            !old(self)@.is_closed ==> r == Ok::<u64, VotingError>(
                old(self)@.proposals.len() as u64,
            ) && final(self)@ == old(self)@.with_proposal(name@, threshold as nat),
    {
        if self.is_closed {
            return Err(VotingError::SessionClosed);
        }
        let id: u64 = self.proposals.len() as u64;
        let proposal = Proposal { name, threshold, votes: 0, won: false };
        self.proposals.push(proposal);
        proof {
            lemma_with_proposal_wf(old(self)@, name@, threshold as nat);
            assert(self@.proposals =~= old(self)@.with_proposal(
                name@,
                threshold as nat,
            ).proposals);
        }
        Ok(id)
    }

    /// Admits a voter with a full allowance and hands their credential to
    /// the caller. Two voters may bear one name: the credential tells them
    /// apart. A closed session admits no more voters.
    pub fn add_voter(&mut self, name: String) -> (r: Result<Credential, VotingError>)
        requires
            old(self).wf(),
        ensures
            final(self).wf(),
            old(self)@.evolves_to(final(self)@),
            old(self)@.is_closed ==> (r matches Err(e) && e == VotingError::SessionClosed)
                && final(self)@ == old(self)@,
            !old(self)@.is_closed ==> (r matches Ok(credential) && credential@ == (
                OwnershipProof {
                    kind: CredentialKind::Voter,
                    amount: 1,
                    id: old(self)@.voters.len() as u64,
                }
            )) && final(self)@ == old(self)@.with_voter(name@),
    {
        if self.is_closed {
            return Err(VotingError::SessionClosed);
        }
        let id: u64 = self.voters.len() as u64;
        let voter = Voter { name, remaining_votes: self.votes_per_person };
        self.voters.push(voter);
        proof {
            lemma_with_voter_wf(old(self)@, name@);
            assert(self@.voters =~= old(self)@.with_voter(name@).voters);
        }
        Ok(Credential::mint(CredentialKind::Voter, id))
    }

    /// Casts `number_of_votes` of the voter that `voter_badge` attests for
    /// the proposal `chosen_proposal_id`. The caller keeps the credential
    /// and presents only the proof. The call is accepted exactly if the
    /// session is open, the proof is of one unit of a voter record of this
    /// session, the voter has that many votes left, the proposal exists and
    /// the running total stays in range; else it says which of these failed
    /// first and changes nothing.
    pub fn vote(
        &mut self,
        voter_badge: &OwnershipProof,
        chosen_proposal_id: u64,
        number_of_votes: u16,
    ) -> (r: Result<(), VotingError>)
        requires
            old(self).wf(),
        ensures
            final(self).wf(),
            old(self)@.evolves_to(final(self)@),
            match old(self)@.vote_rejection(*voter_badge, chosen_proposal_id, number_of_votes) {
                Some(e) => r == Err::<(), VotingError>(e) && final(self)@ == old(self)@,
                None => r == Ok::<(), VotingError>(()) && final(self)@ == old(self)@.with_votes(
                    voter_badge.id as int,
                    chosen_proposal_id as int,
                    number_of_votes as nat,
                ),
            },
            final(self)@ == old(self)@.after_vote(
                *voter_badge,
                chosen_proposal_id,
                number_of_votes,
            ),
    {
        if self.is_closed {
            return Err(VotingError::SessionClosed);
        }
        if !(voter_badge.kind == CredentialKind::Voter) || voter_badge.amount != 1
            || voter_badge.id >= self.voters.len() as u64 {
            return Err(VotingError::InvalidCredential);
        }
        let voter_id: usize = voter_badge.id as usize;
        let remaining: u16 = self.voters[voter_id].remaining_votes;
        if remaining < number_of_votes {
            return Err(
                VotingError::InsufficientAllowance { requested: number_of_votes, remaining },
            );
        }
        if chosen_proposal_id >= self.proposals.len() as u64 {
            return Err(VotingError::UnknownProposal { proposal_id: chosen_proposal_id });
        }
        let proposal_id: usize = chosen_proposal_id as usize;
        if number_of_votes > u16::MAX - self.total_votes {
            return Err(VotingError::ArithmeticOverflow);
        }
        proof {
            lemma_with_votes_wf(old(self)@, *voter_badge, chosen_proposal_id, number_of_votes);
        }
        let votes: u16 = self.proposals[proposal_id].votes;
        self.voters[voter_id].remaining_votes = remaining - number_of_votes;
        self.proposals[proposal_id].votes = votes + number_of_votes;
        self.total_votes = self.total_votes + number_of_votes;
        proof {
            let next = old(self)@.with_votes(
                voter_badge.id as int,
                chosen_proposal_id as int,
                number_of_votes as nat,
            );
            assert(self@.proposals =~= next.proposals);
            assert(self@.voters =~= next.voters);
        }
        Ok(())
    }

    /// Casts votes as `vote` does, for a caller who hands the credential
    /// itself over for the length of the call. The credential comes back
    /// whether the call is accepted or rejected.
    pub fn vote_with_credential(
        &mut self,
        voter_badge: Credential,
        chosen_proposal_id: u64,
        number_of_votes: u16,
    ) -> (r: (Credential, Result<(), VotingError>))
        requires
            old(self).wf(),
        ensures
            final(self).wf(),
            old(self)@.evolves_to(final(self)@),
            r.0@ == voter_badge@,
            match old(self)@.vote_rejection(voter_badge@, chosen_proposal_id, number_of_votes) {
                Some(e) => r.1 == Err::<(), VotingError>(e),
                None => r.1 == Ok::<(), VotingError>(()),
            },
            final(self)@ == old(self)@.after_vote(
                voter_badge@,
                chosen_proposal_id,
                number_of_votes,
            ),
    {
        let proof = voter_badge.prove();
        let outcome = self.vote(&proof, chosen_proposal_id, number_of_votes);
        (voter_badge, outcome)
    }

    /// Tallies the votes and closes the session: each proposal whose
    /// rounded share of all votes reaches its threshold is marked as having
    /// won. The tally takes place once, and only after a vote has been cast.
    pub fn winning_proposals(&mut self) -> (r: Result<(), VotingError>)
        requires
            old(self).wf(),
        ensures
            final(self).wf(),
            old(self)@.evolves_to(final(self)@),
            old(self)@.is_closed ==> r == Err::<(), VotingError>(VotingError::SessionClosed)
                && final(self)@ == old(self)@,
            !old(self)@.is_closed && old(self)@.total_votes == 0 ==> r == Err::<
                (),
                VotingError,
            >(VotingError::NoVotesCast) && final(self)@ == old(self)@,
            !old(self)@.is_closed && old(self)@.total_votes > 0 ==> r == Ok::<(), VotingError>(())
                && final(self)@ == old(self)@.tallied(),
    {
        if self.is_closed {
            return Err(VotingError::SessionClosed);
        }
        if self.total_votes == 0 {
            return Err(VotingError::NoVotesCast);
        }
        let ghost before = self@;
        let count: usize = self.proposals.len();
        let mut i: usize = 0;
        while i < count
            invariant
                i <= count,
                count == self.proposals@.len(),
                before == old(self)@,
                before.wf(),
                !before.is_closed,
                before.proposals.len() == count,
                self.total_votes == before.total_votes,
                self.total_votes > 0,
                self.votes_per_person == before.votes_per_person,
                self.chairperson_rule == before.chairperson_rule,
                self.admin_badge == old(self).admin_badge,
                !self.is_closed,
                self@.voters == before.voters,
                forall|j: int|
                    0 <= j < i ==> (#[trigger] self.proposals@[j])@ == before.tallied().proposals[j],
                forall|j: int|
                    i <= j < count ==> (#[trigger] self.proposals@[j])@ == before.proposals[j],
            decreases count - i,
        {
            let votes: u16 = self.proposals[i].votes;
            let threshold: u8 = self.proposals[i].threshold;
            proof {
                assert(self.proposals@[i as int]@ == before.proposals[i as int]);
                assert(!before.proposals[i as int].won);
            }
            match meets_threshold(votes, self.total_votes, threshold) {
                Ok(true) => {
                    self.proposals[i].won = true;
                },
                _ => {},
            }
            i = i + 1;
        }
        self.is_closed = true;
        proof {
            lemma_tallied_wf(before);
            assert(self@.proposals =~= before.tallied().proposals);
        }
        Ok(())
    }

    /// Reports the record of one proposal, with its name, its threshold and
    /// whether it has won. Results are reported only once the session is
    /// closed.
    pub fn check_winner(&self, chosen_proposal_id: u64) -> (r: Result<&Proposal, VotingError>)
        requires
            self.wf(),
        ensures
            !self@.is_closed ==> (r matches Err(e) && e == VotingError::SessionOpen),
            self@.is_closed && chosen_proposal_id >= self@.proposals.len() ==> (r matches Err(e)
                && e == VotingError::UnknownProposal { proposal_id: chosen_proposal_id }),
            self@.is_closed && chosen_proposal_id < self@.proposals.len() ==> (r matches Ok(
                proposal,
            ) && proposal@ == self@.proposals[chosen_proposal_id as int] && proposal@.won
                == spec_wins(proposal@.votes, self@.total_votes, proposal@.threshold)),
    {
        if !self.is_closed {
            return Err(VotingError::SessionOpen);
        }
        if chosen_proposal_id >= self.proposals.len() as u64 {
            return Err(VotingError::UnknownProposal { proposal_id: chosen_proposal_id });
        }
        let proposal = &self.proposals[chosen_proposal_id as usize];
        proof {
            assert(proposal@ == self@.proposals[chosen_proposal_id as int]);
        }
        Ok(proposal)
    }

    /// Reports the records of all proposals, each at the place of its id.
    /// Results are reported only once the session is closed.
    pub fn check_results(&self) -> (r: Result<Vec<&Proposal>, VotingError>)
        requires
            self.wf(),
        ensures
            !self@.is_closed ==> (r matches Err(e) && e == VotingError::SessionOpen),
            self@.is_closed ==> (r matches Ok(results) && results@.len()
                == self@.proposals.len() && forall|i: int|
                0 <= i < results@.len() ==> (#[trigger] results@[i])@ == self@.proposals[i]),
    {
        if !self.is_closed {
            return Err(VotingError::SessionOpen);
        }
        let count: usize = self.proposals.len();
        let mut results: Vec<&Proposal> = Vec::new();
        let mut i: usize = 0;
        while i < count
            invariant
                i <= count,
                count == self@.proposals.len(),
                self.wf(),
                self@.is_closed,
                results@.len() == i,
                forall|j: int| 0 <= j < i ==> (#[trigger] results@[j])@ == self@.proposals[j],
            decreases count - i,
        {
            match self.check_winner(i as u64) {
                Ok(proposal) => {
                    results.push(proposal);
                },
                Err(_) => {},
            }
            i = i + 1;
        }
        Ok(results)
    }

    /// Whether the tally has taken place.
    pub fn is_closed(&self) -> (closed: bool)
        ensures
            closed == self@.is_closed,
    {
        self.is_closed
    }

    /// The allowance that each voter is admitted with.
    pub fn votes_per_person(&self) -> (allowance: u16)
        ensures
            allowance == self@.votes_per_person,
    {
        self.votes_per_person
    }

    /// All votes accepted so far.
    pub fn total_votes(&self) -> (total: u16)
        ensures
            total == self@.total_votes,
    {
        self.total_votes
    }

    /// The number of proposals, which is also the id that the next one gets.
    pub fn proposal_count(&self) -> (count: u64)
        ensures
            count == self@.proposals.len(),
    {
        self.proposals.len() as u64
    }

    /// The number of voters, which is also the id that the next one gets.
    pub fn voter_count(&self) -> (count: u64)
        ensures
            count == self@.voters.len(),
    {
        self.voters.len() as u64
    }

    /// The record of the proposal `proposal_id`, if there is one. Unlike a
    /// report of results, this is open at any time.
    pub fn proposal(&self, proposal_id: u64) -> (r: Option<&Proposal>)
        ensures
            proposal_id >= self@.proposals.len() ==> r is None,
            proposal_id < self@.proposals.len() ==> (r matches Some(proposal) && proposal@
                == self@.proposals[proposal_id as int]),
    {
        if proposal_id >= self.proposals.len() as u64 {
            return None;
        }
        Some(&self.proposals[proposal_id as usize])
    }

    /// The record of the voter `voter_id`, if there is one.
    pub fn voter(&self, voter_id: u64) -> (r: Option<&Voter>)
        ensures
            voter_id >= self@.voters.len() ==> r is None,
            voter_id < self@.voters.len() ==> (r matches Some(voter) && voter@
                == self@.voters[voter_id as int]),
    {
        if voter_id >= self.voters.len() as u64 {
            return None;
        }
        Some(&self.voters[voter_id as usize])
    }

    /// The state that the given parts describe, whether or not its books
    /// balance.
    pub open spec fn parts_view(
        is_closed: bool,
        votes_per_person: u16,
        total_votes: u16,
        proposals: Seq<Proposal>,
        voters: Seq<Voter>,
        chairperson_access_rule: AccessRule,
    ) -> SessionView {
        SessionView {
            is_closed,
            votes_per_person: votes_per_person as nat,
            total_votes: total_votes as nat,
            proposals: proposals.map_values(|p: Proposal| p@),
            voters: voters.map_values(|v: Voter| v@),
            chairperson_rule: chairperson_access_rule,
        }
    }

    /// Whether the running total is the sum of the proposals' votes.
    fn cast_matches_total(&self) -> (ok: bool)
        ensures
            ok == (self@.total_votes == total_cast(self@.proposals)),
    {
        let ghost votes = votes_of(self@.proposals);
        let count: usize = self.proposals.len();
        let mut cast: u32 = 0;
        let mut i: usize = 0;
        while i < count
            invariant
                i <= count,
                count == self.proposals@.len(),
                votes == votes_of(self@.proposals),
                cast == sum(votes.take(i as int)),
                cast <= self.total_votes,
            decreases count - i,
        {
            proof {
                lemma_sum_take_step(votes, i as int);
                lemma_sum_prefix_le(votes, i + 1);
            }
            cast = cast + self.proposals[i].votes as u32;
            if cast > self.total_votes as u32 {
                return false;
            }
            i = i + 1;
        }
        proof {
            assert(votes.take(i as int) =~= votes);
        }
        cast == self.total_votes as u32
    }

    /// Whether no voter holds more than one allowance, and votes cast and
    /// votes still held make up the allowance issued.
    fn allowances_hold(&self) -> (ok: bool)
        ensures
            ok == ({
                &&& forall|i: int|
                    0 <= i < self@.voters.len() ==> (#[trigger] self@.voters[i]).remaining_votes
                        <= self@.votes_per_person
                &&& self@.total_votes + total_remaining(self@.voters) == self@.votes_per_person
                    * self@.voters.len()
            }),
    {
        let ghost left = remaining_of(self@.voters);
        let count: usize = self.voters.len();
        let mut held: u128 = 0;
        let mut i: usize = 0;
        while i < count
            invariant
                i <= count,
                count == self.voters@.len(),
                left == remaining_of(self@.voters),
                held == sum(left.take(i as int)),
                held <= 65535 * i,
                forall|j: int|
                    0 <= j < i ==> (#[trigger] self@.voters[j]).remaining_votes
                        <= self@.votes_per_person,
            decreases count - i,
        {
            proof {
                lemma_sum_take_step(left, i as int);
            }
            let remaining: u16 = self.voters[i].remaining_votes;
            if remaining > self.votes_per_person {
                proof {
                    assert(self@.voters[i as int].remaining_votes > self@.votes_per_person);
                }
                return false;
            }
            held = held + remaining as u128;
            i = i + 1;
        }
        proof {
            assert(left.take(i as int) =~= left);
            assert(self.votes_per_person * count <= 65535 * 0x1_0000_0000_0000_0000)
                by (nonlinear_arith)
                requires
                    self.votes_per_person <= 65535,
                    count <= 0x1_0000_0000_0000_0000,
            ;
        }
        self.total_votes as u128 + held == self.votes_per_person as u128 * (count as u128)
    }

    /// Whether the proposals' outcomes are those of the session's state:
    /// none has won while the session is open, and in a closed session a
    /// vote has been cast and each has won exactly if it reached its
    /// threshold.
    fn outcomes_hold(&self) -> (ok: bool)
        ensures
            ok == ({
                &&& !self@.is_closed ==> forall|i: int|
                    0 <= i < self@.proposals.len() ==> !(#[trigger] self@.proposals[i]).won
                &&& self@.is_closed ==> self@.total_votes > 0 && forall|i: int|
                    0 <= i < self@.proposals.len() ==> (#[trigger] self@.proposals[i]).won
                        == spec_wins(
                        self@.proposals[i].votes,
                        self@.total_votes,
                        self@.proposals[i].threshold,
                    )
            }),
    {
        if self.is_closed && self.total_votes == 0 {
            return false;
        }
        let count: usize = self.proposals.len();
        let mut i: usize = 0;
        while i < count
            invariant
                i <= count,
                count == self.proposals@.len(),
                self.is_closed ==> self.total_votes > 0,
                !self@.is_closed ==> forall|j: int|
                    0 <= j < i ==> !(#[trigger] self@.proposals[j]).won,
                self@.is_closed ==> forall|j: int|
                    0 <= j < i ==> (#[trigger] self@.proposals[j]).won == spec_wins(
                        self@.proposals[j].votes,
                        self@.total_votes,
                        self@.proposals[j].threshold,
                    ),
            decreases count - i,
        {
            let proposal = &self.proposals[i];
            let expected: bool = self.is_closed && match meets_threshold(
                proposal.votes,
                self.total_votes,
                proposal.threshold,
            ) {
                Ok(wins) => wins,
                Err(_) => false,
            };
            if proposal.won != expected {
                proof {
                    assert(self@.proposals[i as int] == proposal@);
                }
                return false;
            }
            i = i + 1;
        }
        true
    }

    /// Rebuilds a session from parts that were read off one and kept
    /// elsewhere. The parts are taken only if their books balance; what
    /// does not balance is no session, and none is made of it.
    pub fn restore(
        is_closed: bool,
        votes_per_person: u16,
        total_votes: u16,
        proposals: Vec<Proposal>,
        voters: Vec<Voter>,
        chairperson_access_rule: AccessRule,
    ) -> (r: Option<ProposalVoting>)
        ensures
            match r {
                Some(session) => session.wf() && session@ == Self::parts_view(
                    is_closed,
                    votes_per_person,
                    total_votes,
                    proposals@,
                    voters@,
                    chairperson_access_rule,
                ),
                None => !Self::parts_view(
                    is_closed,
                    votes_per_person,
                    total_votes,
                    proposals@,
                    voters@,
                    chairperson_access_rule,
                ).wf(),
            },
    {
        let session = ProposalVoting {
            admin_badge: Credential::mint(CredentialKind::Admin, 0),
            chairperson_rule: chairperson_access_rule,
            is_closed,
            votes_per_person,
            total_votes,
            proposals,
            voters,
        };
        if session.cast_matches_total() && session.allowances_hold() && session.outcomes_hold() {
            Some(session)
        } else {
            None
        }
    }
}

} // verus!
