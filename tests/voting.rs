use civic_contracts::account::AccountId;
use civic_contracts::voting::{Proposal, ProposalError, User, Vote, Voting};

fn account(b: u8) -> AccountId {
    let w = u128::from_be_bytes([b; 16]);
    AccountId { hi: w, lo: w }
}

fn owner() -> AccountId {
    account(1)
}

fn vera() -> AccountId {
    account(4)
}

fn proposal(v: &Voting, id: u32) -> Proposal {
    v.get_all_proposal()[id as usize].clone()
}

fn tally(p: &Proposal) -> (u32, u32, u32) {
    (p.vote_aye, p.vote_nye, p.total_vote)
}

/// Owner creates "Road", activates it, registers Vera, who votes Aye.
fn happy_path() -> Voting {
    let mut v = Voting::new(owner());
    let ev = v.create_proposal(owner(), String::from("Road")).unwrap();
    assert_eq!(ev.proposal.id, 0);
    assert_eq!(ev.proposal.proposal_name, "Road");
    assert_eq!(v.change_proposal_status(owner(), 0), Ok(()));
    assert!(v.register_user(vera(), String::from("Vera")).is_ok());
    assert_eq!(v.vote_proposal(vera(), Vote::Aye, 0), Ok(()));
    v
}

#[test]
fn proposal_happy_path() {
    let mut v = happy_path();
    let p = proposal(&v, 0);
    assert_eq!(tally(&p), (1, 0, 1));
    assert!(p.proposal_status);
    assert!(!p.voting_finished);
}

#[test]
fn active_limit_guard() {
    let mut v = happy_path();
    let ev = v.create_proposal(owner(), String::from("Park")).unwrap();
    assert_eq!(ev.proposal.id, 1);
    assert_eq!(
        v.change_proposal_status(owner(), 1),
        Err(ProposalError::ReachActiveProposalLimit)
    );
    assert!(!proposal(&v, 1).proposal_status);
}

#[test]
fn retirement_unlocks_activation() {
    let mut v = happy_path();
    v.create_proposal(owner(), String::from("Park")).unwrap();
    assert_eq!(
        v.change_proposal_status(owner(), 1),
        Err(ProposalError::ReachActiveProposalLimit)
    );
    assert_eq!(v.active_count(), 2);
    assert_eq!(v.remove_active_proposal(owner(), 0), Ok(()));
    assert_eq!(v.active_count(), 1);
    assert_eq!(v.change_proposal_status(owner(), 1), Ok(()));
    assert_eq!(v.active_count(), 2);
    let road = proposal(&v, 0);
    assert!(road.proposal_status && road.voting_finished);
    assert_eq!(tally(&road), (1, 0, 1));
    let park = proposal(&v, 1);
    assert!(park.proposal_status && !park.voting_finished);
    let active = v.get_active_proposal();
    assert_eq!(active.len(), 2);
    assert_eq!(active.iter().filter(|p| !p.voting_finished).count(), 1);
}

#[test]
fn duplicate_vote_is_rejected() {
    let mut v = happy_path();
    v.create_proposal(owner(), String::from("Park")).unwrap();
    v.remove_active_proposal(owner(), 0).unwrap();
    v.change_proposal_status(owner(), 1).unwrap();
    assert_eq!(v.vote_proposal(vera(), Vote::Nye, 1), Ok(()));
    assert_eq!(
        v.vote_proposal(vera(), Vote::Aye, 1),
        Err(ProposalError::AlreadyVoted)
    );
    assert_eq!(tally(&proposal(&v, 1)), (0, 1, 1));
}

#[test]
fn second_vote_same_proposal_rejected() {
    let mut v = happy_path();
    assert_eq!(
        v.vote_proposal(vera(), Vote::Nye, 0),
        Err(ProposalError::AlreadyVoted)
    );
    assert_eq!(tally(&proposal(&v, 0)), (1, 0, 1));
}

#[test]
fn short_name_is_rejected() {
    let mut v = Voting::new(owner());
    assert!(matches!(
        v.register_user(vera(), String::from("Ve")),
        Err(ProposalError::ShortNameLen)
    ));
    assert!(v.get_all_users().is_empty());
    assert_eq!(v.get_next_userid(), 0);
}

#[test]
fn registered_user_is_listed() {
    let mut v = Voting::new(owner());
    let ev = v.register_user(vera(), String::from("Vera")).unwrap();
    assert_eq!(ev.user.user_name, "Vera");
    assert!(v.register_user(vera(), String::from("Vera again")).is_ok());
    let users = v.get_all_users();
    assert_eq!(users.len(), 2);
    assert!(users
        .iter()
        .any(|u| u.user_account == vera() && u.user_name == "Vera"));
    assert_eq!(v.get_next_userid(), 2);
    assert!(v.check_register_user(vera()));
    assert!(!v.check_register_user(owner()));
}

#[test]
fn vote_on_created_proposal_rejected() {
    let mut v = Voting::new(owner());
    v.create_proposal(owner(), String::from("Road")).unwrap();
    v.register_user(vera(), String::from("Vera")).unwrap();
    assert_eq!(
        v.vote_proposal(vera(), Vote::Aye, 0),
        Err(ProposalError::ProposalStatusError)
    );
    assert_eq!(
        v.vote_proposal(vera(), Vote::Aye, 7),
        Err(ProposalError::ProposalStatusError)
    );
}

#[test]
fn unregistered_voter_rejected() {
    let mut v = Voting::new(owner());
    v.create_proposal(owner(), String::from("Road")).unwrap();
    v.change_proposal_status(owner(), 0).unwrap();
    assert_eq!(
        v.vote_proposal(vera(), Vote::Aye, 0),
        Err(ProposalError::AccountNotRegistered)
    );
    assert_eq!(tally(&proposal(&v, 0)), (0, 0, 0));
}

#[test]
fn retire_created_proposal_rejected() {
    let mut v = Voting::new(owner());
    v.create_proposal(owner(), String::from("Road")).unwrap();
    assert_eq!(
        v.remove_active_proposal(owner(), 0),
        Err(ProposalError::StatusNotAgreed)
    );
}

#[test]
fn retire_retired_proposal_rejected() {
    let mut v = happy_path();
    v.remove_active_proposal(owner(), 0).unwrap();
    assert_eq!(
        v.remove_active_proposal(owner(), 0),
        Err(ProposalError::VotingFinishedAlready)
    );
    assert_eq!(
        v.change_proposal_status(owner(), 0),
        Err(ProposalError::VotingFinishedAlready)
    );
    assert_eq!(
        v.vote_proposal(vera(), Vote::Aye, 0),
        Err(ProposalError::VotingFinishedAlready)
    );
}

#[test]
fn lifecycle_round_trip() {
    let mut v = Voting::new(owner());
    v.register_user(vera(), String::from("Vera")).unwrap();
    v.create_proposal(owner(), String::from("Road")).unwrap();
    v.change_proposal_status(owner(), 0).unwrap();
    v.vote_proposal(vera(), Vote::Aye, 0).unwrap();
    v.remove_active_proposal(owner(), 0).unwrap();
    let p = proposal(&v, 0);
    assert_eq!(tally(&p), (1, 0, 1));
    assert!(p.proposal_status && p.voting_finished);
}

#[test]
fn owner_only_operations() {
    let mut v = Voting::new(owner());
    assert_eq!(v.get_account_id(), owner());
    assert!(v.check_owner(owner()));
    assert!(!v.check_owner(vera()));
    assert!(matches!(
        v.create_proposal(vera(), String::from("Road")),
        Err(ProposalError::NotOwner)
    ));
    assert_eq!(v.get_next_id(), 0);
    v.create_proposal(owner(), String::from("Road")).unwrap();
    assert_eq!(v.get_next_id(), 1);
    assert_eq!(
        v.change_proposal_status(vera(), 0),
        Err(ProposalError::NotOwner)
    );
    assert_eq!(
        v.remove_active_proposal(vera(), 0),
        Err(ProposalError::NotOwner)
    );
}

#[test]
fn missing_proposal_outcomes() {
    let mut v = Voting::new(owner());
    assert_eq!(
        v.change_proposal_status(owner(), 3),
        Err(ProposalError::AccountNotRegistered)
    );
    assert_eq!(v.remove_active_proposal(owner(), 3), Ok(()));
    assert!(v.get_all_proposal().is_empty());
}

#[test]
fn activation_resets_and_ids_are_dense() {
    let mut v = Voting::new(owner());
    for (i, name) in ["A", "B", "C"].iter().enumerate() {
        let ev = v.create_proposal(owner(), String::from(*name)).unwrap();
        assert_eq!(ev.proposal.id, i as u32);
        assert_eq!(tally(&ev.proposal), (0, 0, 0));
    }
    let all = v.get_all_proposal();
    let ids: Vec<u32> = all.iter().map(|p| p.id).collect();
    assert_eq!(ids, vec![0, 1, 2]);
    assert!(v.get_active_proposal().is_empty());
    v.change_proposal_status(owner(), 2).unwrap();
    let active = v.get_active_proposal();
    assert_eq!(active.len(), 1);
    assert_eq!(active[0].id, 2);
}

#[test]
fn restore_rebuilds_stored_state() {
    let v = happy_path();
    let users: Vec<User> = v.get_all_users();
    let back = Voting::restore(
        v.get_account_id(),
        v.active_count(),
        v.get_all_proposal(),
        users,
        v.voted_pairs(),
    )
    .unwrap();
    assert_eq!(tally(&proposal(&back, 0)), (1, 0, 1));
    assert_eq!(back.voted_pairs(), vec![(vera(), 0)]);
    assert!(back.check_register_user(vera()));
    assert_eq!(back.active_count(), 2);
}

#[test]
fn restore_rejects_malformed_state() {
    let v = happy_path();
    let twice = vec![(vera(), 0), (vera(), 0)];
    assert!(Voting::restore(owner(), 2, v.get_all_proposal(), v.get_all_users(), twice).is_none());
    let dangling = vec![(vera(), 5)];
    assert!(Voting::restore(owner(), 2, v.get_all_proposal(), v.get_all_users(), dangling).is_none());
    assert!(Voting::restore(owner(), 0, Vec::new(), Vec::new(), Vec::new()).is_none());
    let mut bad = v.get_all_proposal();
    bad[0].total_vote = 5;
    assert!(Voting::restore(owner(), 2, bad, Vec::new(), Vec::new()).is_none());
    let mut misplaced = v.get_all_proposal();
    misplaced[0].id = 3;
    assert!(Voting::restore(owner(), 2, misplaced, Vec::new(), Vec::new()).is_none());
}

#[test]
fn retiring_absent_id_keeps_the_active_limit() {
    let mut v = Voting::new(owner());
    v.create_proposal(owner(), String::from("Road")).unwrap();
    v.create_proposal(owner(), String::from("Park")).unwrap();
    v.change_proposal_status(owner(), 0).unwrap();
    assert_eq!(v.remove_active_proposal(owner(), 7), Ok(()));
    assert_eq!(v.active_count(), 2);
    assert_eq!(
        v.change_proposal_status(owner(), 1),
        Err(ProposalError::ReachActiveProposalLimit)
    );
    assert!(!proposal(&v, 1).proposal_status);
}

#[test]
fn name_length_counts_characters() {
    let mut v = Voting::new(owner());
    assert!(matches!(
        v.register_user(vera(), String::from("\u{e9}\u{e9}")),
        Err(ProposalError::ShortNameLen)
    ));
    assert!(v.get_all_users().is_empty());
    assert!(v.register_user(vera(), String::from("\u{e9}\u{e9}\u{e9}")).is_ok());
    let users = v.get_all_users();
    assert_eq!(users.len(), 1);
    assert!(users[0].voted_proposal.is_empty());
}
