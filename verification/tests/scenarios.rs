use proposal_voting::{
    AccessRule, CredentialKind, Method, OwnershipProof, Proposal, ProposalVoting, Voter,
    VotingError,
};

fn name(s: &str) -> String {
    String::from(s)
}

#[test]
fn tally_marks_sixty_percent_as_won_and_forty_as_lost() {
    let (mut session, _chair) = ProposalVoting::instantiate_proposal_voting(10);
    let a = session.add_proposal(name("A"), 50).unwrap();
    let b = session.add_proposal(name("B"), 50).unwrap();
    let alice = session.add_voter(name("Alice")).unwrap();
    assert_eq!(session.voter(alice.id()).unwrap().remaining_votes, 10);

    assert_eq!(session.vote(&alice.prove(), a, 6), Ok(()));
    assert_eq!(session.vote(&alice.prove(), b, 4), Ok(()));
    assert_eq!(session.voter(alice.id()).unwrap().remaining_votes, 0);
    assert_eq!(session.total_votes(), 10);

    assert_eq!(session.winning_proposals(), Ok(()));
    assert!(session.is_closed());
    assert!(session.check_winner(a).unwrap().won);
    assert!(!session.check_winner(b).unwrap().won);
    assert_eq!(session.check_winner(a).unwrap().votes, 6);
    assert_eq!(session.check_winner(b).unwrap().votes, 4);
}

#[test]
fn vote_beyond_allowance_is_rejected_and_changes_nothing() {
    let (mut session, _chair) = ProposalVoting::instantiate_proposal_voting(10);
    let a = session.add_proposal(name("A"), 50).unwrap();
    let alice = session.add_voter(name("Alice")).unwrap();

    assert_eq!(
        session.vote(&alice.prove(), a, 11),
        Err(VotingError::InsufficientAllowance { requested: 11, remaining: 10 })
    );
    assert_eq!(session.voter(alice.id()).unwrap().remaining_votes, 10);
    assert_eq!(session.proposal(a).unwrap().votes, 0);
    assert_eq!(session.total_votes(), 0);
}

#[test]
fn vote_after_tally_is_rejected() {
    let (mut session, _chair) = ProposalVoting::instantiate_proposal_voting(10);
    let a = session.add_proposal(name("A"), 50).unwrap();
    let b = session.add_proposal(name("B"), 50).unwrap();
    let alice = session.add_voter(name("Alice")).unwrap();
    let bob = session.add_voter(name("Bob")).unwrap();
    session.vote(&alice.prove(), a, 6).unwrap();
    session.vote(&alice.prove(), b, 4).unwrap();
    session.winning_proposals().unwrap();

    assert_eq!(session.vote(&alice.prove(), a, 1), Err(VotingError::SessionClosed));
    assert_eq!(session.vote(&bob.prove(), a, 1), Err(VotingError::SessionClosed));
    assert_eq!(session.proposal(a).unwrap().votes, 6);
    assert_eq!(session.voter(bob.id()).unwrap().remaining_votes, 10);
    assert_eq!(session.total_votes(), 10);
}

#[test]
fn results_are_not_reported_before_tally() {
    let (mut session, _chair) = ProposalVoting::instantiate_proposal_voting(10);
    let a = session.add_proposal(name("A"), 50).unwrap();
    assert_eq!(session.check_winner(a).unwrap_err(), VotingError::SessionOpen);
    assert_eq!(session.check_winner(99).unwrap_err(), VotingError::SessionOpen);
    assert_eq!(session.check_results().unwrap_err(), VotingError::SessionOpen);
}

#[test]
fn vote_for_unknown_proposal_is_rejected_and_changes_nothing() {
    let (mut session, _chair) = ProposalVoting::instantiate_proposal_voting(10);
    let a = session.add_proposal(name("A"), 50).unwrap();
    let alice = session.add_voter(name("Alice")).unwrap();
    session.vote(&alice.prove(), a, 3).unwrap();

    assert_eq!(
        session.vote(&alice.prove(), 7, 2),
        Err(VotingError::UnknownProposal { proposal_id: 7 })
    );
    assert_eq!(session.voter(alice.id()).unwrap().remaining_votes, 7);
    assert_eq!(session.proposal(a).unwrap().votes, 3);
    assert_eq!(session.total_votes(), 3);
    assert!(!session.is_closed());
}

#[test]
fn tally_without_votes_is_rejected() {
    let (mut session, _chair) = ProposalVoting::instantiate_proposal_voting(10);
    let a = session.add_proposal(name("A"), 0).unwrap();
    let _alice = session.add_voter(name("Alice")).unwrap();

    assert_eq!(session.winning_proposals(), Err(VotingError::NoVotesCast));
    assert_eq!(session.winning_proposals(), Err(VotingError::NoVotesCast));
    assert!(!session.is_closed());
    assert!(!session.proposal(a).unwrap().won);
}

#[test]
fn zero_threshold_wins_without_a_vote_of_its_own() {
    let (mut session, _chair) = ProposalVoting::instantiate_proposal_voting(5);
    let a = session.add_proposal(name("A"), 0).unwrap();
    let b = session.add_proposal(name("B"), 100).unwrap();
    let c = session.add_proposal(name("C"), 1).unwrap();
    let alice = session.add_voter(name("Alice")).unwrap();
    session.vote(&alice.prove(), b, 5).unwrap();
    session.winning_proposals().unwrap();

    let won_a = session.check_winner(a).unwrap();
    assert_eq!(won_a.votes, 0);
    assert!(won_a.won);
    assert!(session.check_winner(b).unwrap().won);
    assert!(!session.check_winner(c).unwrap().won);
}

#[test]
fn second_tally_is_rejected_and_session_stays_closed() {
    let (mut session, _chair) = ProposalVoting::instantiate_proposal_voting(4);
    let a = session.add_proposal(name("A"), 50).unwrap();
    let alice = session.add_voter(name("Alice")).unwrap();
    session.vote(&alice.prove(), a, 4).unwrap();
    assert_eq!(session.winning_proposals(), Ok(()));
    assert!(session.is_closed());

    assert_eq!(session.winning_proposals(), Err(VotingError::SessionClosed));
    assert!(session.is_closed());
    assert_eq!(session.add_proposal(name("late"), 10), Err(VotingError::SessionClosed));
    assert_eq!(session.add_voter(name("late")).unwrap_err(), VotingError::SessionClosed);
    assert!(session.is_closed());
    assert!(session.proposal(1).is_none());
    assert!(session.voter(1).is_none());
    assert!(session.check_winner(a).unwrap().won);
}

#[test]
fn total_is_the_sum_of_the_proposals_votes() {
    let (mut session, _chair) = ProposalVoting::instantiate_proposal_voting(10);
    let a = session.add_proposal(name("A"), 30).unwrap();
    let b = session.add_proposal(name("B"), 30).unwrap();
    let c = session.add_proposal(name("C"), 30).unwrap();
    let alice = session.add_voter(name("Alice")).unwrap();
    let bob = session.add_voter(name("Bob")).unwrap();

    let casts = [(&alice, a, 3u16), (&bob, b, 10), (&alice, c, 2), (&alice, a, 5), (&bob, a, 1)];
    let mut accepted: u16 = 0;
    for (who, id, n) in casts {
        if session.vote(&who.prove(), id, n).is_ok() {
            accepted += n;
        }
        let sum: u16 = [a, b, c].iter().map(|id| session.proposal(*id).unwrap().votes).sum();
        assert_eq!(session.total_votes(), sum);
        assert_eq!(session.total_votes(), accepted);
    }
    assert_eq!(session.proposal(a).unwrap().votes, 8);
    assert_eq!(session.proposal(b).unwrap().votes, 10);
    assert_eq!(session.proposal(c).unwrap().votes, 2);
    assert_eq!(session.total_votes(), 20);
    let held = session.voter(alice.id()).unwrap().remaining_votes
        + session.voter(bob.id()).unwrap().remaining_votes;
    assert_eq!(held + session.total_votes(), 2 * session.votes_per_person());
}

#[test]
fn remaining_votes_never_grow() {
    let (mut session, _chair) = ProposalVoting::instantiate_proposal_voting(6);
    let a = session.add_proposal(name("A"), 50).unwrap();
    let alice = session.add_voter(name("Alice")).unwrap();
    let mut last = session.voter(alice.id()).unwrap().remaining_votes;
    assert_eq!(last, 6);
    for n in [2u16, 0, 5, 3, 1, 1] {
        let _ = session.vote(&alice.prove(), a, n);
        let now = session.voter(alice.id()).unwrap().remaining_votes;
        assert!(now <= last);
        last = now;
    }
    assert_eq!(last, 0);
    assert_eq!(
        session.vote(&alice.prove(), a, 1),
        Err(VotingError::InsufficientAllowance { requested: 1, remaining: 0 })
    );
}

#[test]
fn proof_of_wrong_type_or_amount_is_rejected() {
    let (mut session, chair) = ProposalVoting::instantiate_proposal_voting(10);
    let a = session.add_proposal(name("A"), 50).unwrap();
    let alice = session.add_voter(name("Alice")).unwrap();

    assert_eq!(session.vote(&chair.prove(), a, 1), Err(VotingError::InvalidCredential));
    let none = OwnershipProof::new(CredentialKind::Voter, 0, alice.id());
    assert_eq!(session.vote(&none, a, 1), Err(VotingError::InvalidCredential));
    let two = OwnershipProof::new(CredentialKind::Voter, 2, alice.id());
    assert_eq!(session.vote(&two, a, 1), Err(VotingError::InvalidCredential));
    let proposal = OwnershipProof::new(CredentialKind::Proposal, 1, a);
    assert_eq!(session.vote(&proposal, a, 1), Err(VotingError::InvalidCredential));
    let foreign = OwnershipProof::new(CredentialKind::Foreign, 1, alice.id());
    assert_eq!(session.vote(&foreign, a, 1), Err(VotingError::InvalidCredential));
    let admin = OwnershipProof::new(CredentialKind::Admin, 1, 0);
    assert_eq!(session.vote(&admin, a, 1), Err(VotingError::InvalidCredential));
    let stranger = OwnershipProof::new(CredentialKind::Voter, 1, 5);
    assert_eq!(session.vote(&stranger, a, 1), Err(VotingError::InvalidCredential));

    assert_eq!(session.total_votes(), 0);
    assert_eq!(session.voter(alice.id()).unwrap().remaining_votes, 10);
    let good = OwnershipProof::new(CredentialKind::Voter, 1, alice.id());
    assert_eq!(good, alice.prove());
    assert_eq!(session.vote(&good, a, 1), Ok(()));
}

#[test]
fn rejections_come_in_the_order_of_the_checks() {
    let (mut session, chair) = ProposalVoting::instantiate_proposal_voting(3);
    let alice = session.add_voter(name("Alice")).unwrap();
    // bad proof and too many votes and unknown proposal: the proof decides
    assert_eq!(session.vote(&chair.prove(), 9, 4), Err(VotingError::InvalidCredential));
    // too many votes and unknown proposal: the allowance decides
    assert_eq!(
        session.vote(&alice.prove(), 9, 4),
        Err(VotingError::InsufficientAllowance { requested: 4, remaining: 3 })
    );
    assert_eq!(
        session.vote(&alice.prove(), 9, 3),
        Err(VotingError::UnknownProposal { proposal_id: 9 })
    );
}

#[test]
fn total_beyond_the_counter_is_rejected() {
    let (mut session, _chair) = ProposalVoting::instantiate_proposal_voting(u16::MAX);
    let a = session.add_proposal(name("A"), 50).unwrap();
    let b = session.add_proposal(name("B"), 50).unwrap();
    let alice = session.add_voter(name("Alice")).unwrap();
    let bob = session.add_voter(name("Bob")).unwrap();
    assert_eq!(session.vote(&alice.prove(), a, u16::MAX - 1), Ok(()));
    assert_eq!(session.vote(&bob.prove(), b, 2), Err(VotingError::ArithmeticOverflow));
    assert_eq!(session.total_votes(), u16::MAX - 1);
    assert_eq!(session.proposal(b).unwrap().votes, 0);
    assert_eq!(session.voter(bob.id()).unwrap().remaining_votes, u16::MAX);
    assert_eq!(session.vote(&bob.prove(), b, 1), Ok(()));
    assert_eq!(session.total_votes(), u16::MAX);
    assert_eq!(session.winning_proposals(), Ok(()));
    assert!(session.check_winner(a).unwrap().won);
    assert!(!session.check_winner(b).unwrap().won);
}

#[test]
fn voters_of_one_name_hold_separate_allowances() {
    let (mut session, _chair) = ProposalVoting::instantiate_proposal_voting(4);
    let a = session.add_proposal(name("A"), 50).unwrap();
    let first = session.add_voter(name("Sam")).unwrap();
    let second = session.add_voter(name("Sam")).unwrap();
    assert_ne!(first.id(), second.id());
    assert_eq!(first.kind(), CredentialKind::Voter);
    session.vote(&first.prove(), a, 4).unwrap();
    assert_eq!(session.voter(first.id()).unwrap().remaining_votes, 0);
    assert_eq!(session.voter(second.id()).unwrap().remaining_votes, 4);
    assert_eq!(session.voter(second.id()).unwrap().name, "Sam");
}

#[test]
fn fresh_session_is_open_and_empty() {
    let (session, chair) = ProposalVoting::instantiate_proposal_voting(7);
    assert!(!session.is_closed());
    assert_eq!(session.votes_per_person(), 7);
    assert_eq!(session.total_votes(), 0);
    assert!(session.proposal(0).is_none());
    assert!(session.voter(0).is_none());
    assert_eq!(chair.kind(), CredentialKind::Chairperson);
    assert_eq!(chair.id(), 0);
    assert_eq!(chair.prove(), OwnershipProof::new(CredentialKind::Chairperson, 1, 0));
}

#[test]
fn proposals_get_their_ids_in_order() {
    let (mut session, _chair) = ProposalVoting::instantiate_proposal_voting(7);
    assert_eq!(session.add_proposal(name("first"), 10), Ok(0));
    assert_eq!(session.add_proposal(name("second"), 20), Ok(1));
    let second = session.proposal(1).unwrap();
    assert_eq!(second.name, "second");
    assert_eq!(second.threshold, 20);
    assert_eq!(second.votes, 0);
    assert!(!second.won);
}

#[test]
fn privileged_operations_carry_the_chairperson_rule() {
    let (session, chair) = ProposalVoting::instantiate_proposal_voting(1);
    let rule = AccessRule::Require(CredentialKind::Chairperson);
    assert_eq!(session.access_rule(Method::AddProposal), rule);
    assert_eq!(session.access_rule(Method::AddVoter), rule);
    assert_eq!(session.access_rule(Method::WinningProposals), rule);
    assert_eq!(session.access_rule(Method::Vote), AccessRule::AllowAll);
    assert_eq!(session.access_rule(Method::CheckWinner), AccessRule::AllowAll);
    assert_eq!(session.access_rule(Method::CheckResults), AccessRule::AllowAll);

    assert!(rule.permits(Some(chair.prove())));
    assert!(!rule.permits(None));
    assert!(!rule.permits(Some(OwnershipProof::new(CredentialKind::Voter, 1, 0))));
    assert!(!rule.permits(Some(OwnershipProof::new(CredentialKind::Chairperson, 0, 0))));
    assert!(session.is_authorized(Method::AddProposal, Some(chair.prove())));
    assert!(session.is_authorized(Method::WinningProposals, Some(chair.prove())));
    assert!(!session.is_authorized(Method::AddVoter, None));
    assert!(!session
        .is_authorized(Method::AddVoter, Some(OwnershipProof::new(CredentialKind::Voter, 1, 0))));
    assert!(session.is_authorized(Method::Vote, None));
    assert!(session.is_authorized(Method::CheckResults, None));
    assert!(AccessRule::AllowAll.permits(None));
    assert!(!AccessRule::DenyAll.permits(Some(chair.prove())));
}

#[test]
fn custom_rule_guards_the_privileged_operations() {
    let session =
        ProposalVoting::instantiate_custom_access_proposal_voting(3, AccessRule::DenyAll);
    assert_eq!(session.access_rule(Method::AddVoter), AccessRule::DenyAll);
    assert_eq!(session.access_rule(Method::Vote), AccessRule::AllowAll);
    assert_eq!(session.votes_per_person(), 3);
    assert!(!session.is_closed());
}

#[test]
fn results_list_every_proposal_at_its_id() {
    let (mut session, _chair) = ProposalVoting::instantiate_proposal_voting(8);
    let a = session.add_proposal(name("A"), 13).unwrap();
    let b = session.add_proposal(name("B"), 88).unwrap();
    let c = session.add_proposal(name("C"), 1).unwrap();
    let alice = session.add_voter(name("Alice")).unwrap();
    session.vote(&alice.prove(), a, 1).unwrap();
    session.vote(&alice.prove(), b, 7).unwrap();
    session.winning_proposals().unwrap();

    let results = session.check_results().unwrap();
    assert_eq!(results.len(), 3);
    // 1 of 8 is 12.5%, which rounds up to 13
    assert_eq!(results[a as usize].name, "A");
    assert!(results[a as usize].won);
    // 7 of 8 is 87.5%, which rounds up to 88
    assert_eq!(results[b as usize].name, "B");
    assert!(results[b as usize].won);
    assert_eq!(results[c as usize].name, "C");
    assert!(!results[c as usize].won);
    assert_eq!(
        session.check_winner(3).unwrap_err(),
        VotingError::UnknownProposal { proposal_id: 3 }
    );
}

#[test]
fn casting_no_votes_is_accepted_and_changes_nothing() {
    let (mut session, _chair) = ProposalVoting::instantiate_proposal_voting(2);
    let a = session.add_proposal(name("A"), 50).unwrap();
    let alice = session.add_voter(name("Alice")).unwrap();
    assert_eq!(session.vote(&alice.prove(), a, 0), Ok(()));
    assert_eq!(session.total_votes(), 0);
    assert_eq!(session.voter(alice.id()).unwrap().remaining_votes, 2);
    assert_eq!(session.winning_proposals(), Err(VotingError::NoVotesCast));
}

#[test]
fn restored_session_goes_on_where_the_first_stood() {
    let (mut session, _chair) = ProposalVoting::instantiate_proposal_voting(10);
    let a = session.add_proposal(name("A"), 50).unwrap();
    let alice = session.add_voter(name("Alice")).unwrap();
    session.vote(&alice.prove(), a, 6).unwrap();

    let proposals = vec![Proposal { name: name("A"), threshold: 50, votes: 6, won: false }];
    let voters = vec![Voter { name: name("Alice"), remaining_votes: 4 }];
    let rule = session.access_rule(Method::AddVoter);
    let mut copy = ProposalVoting::restore(false, 10, 6, proposals, voters, rule).unwrap();
    assert_eq!(copy.total_votes(), session.total_votes());
    assert_eq!(copy.proposal_count(), 1);
    assert_eq!(copy.voter_count(), 1);
    assert_eq!(copy.vote(&alice.prove(), a, 4), Ok(()));
    assert_eq!(copy.winning_proposals(), Ok(()));
    assert!(copy.check_winner(a).unwrap().won);
}

#[test]
fn parts_that_do_not_balance_are_not_restored() {
    let rule = AccessRule::AllowAll;
    let proposal = |votes: u16, won: bool| Proposal { name: name("A"), threshold: 50, votes, won };
    let voter = |remaining_votes: u16| Voter { name: name("V"), remaining_votes };

    // the total is not the sum of the votes
    assert!(ProposalVoting::restore(false, 10, 5, vec![proposal(6, false)], vec![voter(4)], rule)
        .is_none());
    // votes cast and votes held are not the allowance issued
    assert!(ProposalVoting::restore(false, 10, 6, vec![proposal(6, false)], vec![voter(5)], rule)
        .is_none());
    // a voter holds more than one allowance
    assert!(ProposalVoting::restore(
        false,
        10,
        0,
        vec![proposal(0, false)],
        vec![voter(11), voter(9)],
        rule
    )
    .is_none());
    // a win before the tally
    assert!(ProposalVoting::restore(false, 10, 6, vec![proposal(6, true)], vec![voter(4)], rule)
        .is_none());
    // a tally that withheld a win
    assert!(ProposalVoting::restore(true, 10, 6, vec![proposal(6, false)], vec![voter(4)], rule)
        .is_none());
    // a tally without a vote
    assert!(ProposalVoting::restore(true, 10, 0, vec![proposal(0, false)], vec![voter(10)], rule)
        .is_none());
    // balanced parts, open and closed
    assert!(ProposalVoting::restore(false, 10, 6, vec![proposal(6, false)], vec![voter(4)], rule)
        .is_some());
    let closed =
        ProposalVoting::restore(true, 10, 6, vec![proposal(6, true)], vec![voter(4)], rule)
            .unwrap();
    assert!(closed.is_closed());
    assert!(ProposalVoting::restore(false, 3, 0, vec![], vec![], rule).is_some());
}

#[test]
fn credential_handed_over_for_a_vote_comes_back() {
    let (mut session, chair) = ProposalVoting::instantiate_proposal_voting(10);
    let a = session.add_proposal(name("A"), 50).unwrap();
    let alice = session.add_voter(name("Alice")).unwrap();
    let alice_id = alice.id();

    let (alice, outcome) = session.vote_with_credential(alice, a, 6);
    assert_eq!(outcome, Ok(()));
    assert_eq!(alice.id(), alice_id);
    assert_eq!(alice.kind(), CredentialKind::Voter);
    assert_eq!(session.voter(alice_id).unwrap().remaining_votes, 4);
    assert_eq!(session.proposal(a).unwrap().votes, 6);

    // every rejection hands the credential back as well
    let (alice, outcome) = session.vote_with_credential(alice, a, 5);
    assert_eq!(outcome, Err(VotingError::InsufficientAllowance { requested: 5, remaining: 4 }));
    let (alice, outcome) = session.vote_with_credential(alice, 3, 1);
    assert_eq!(outcome, Err(VotingError::UnknownProposal { proposal_id: 3 }));
    let (chair, outcome) = session.vote_with_credential(chair, a, 1);
    assert_eq!(outcome, Err(VotingError::InvalidCredential));
    assert_eq!(chair.kind(), CredentialKind::Chairperson);
    session.winning_proposals().unwrap();
    let (alice, outcome) = session.vote_with_credential(alice, a, 1);
    assert_eq!(outcome, Err(VotingError::SessionClosed));
    assert_eq!(alice.prove(), OwnershipProof::new(CredentialKind::Voter, 1, alice_id));
    assert_eq!(session.total_votes(), 6);
}
