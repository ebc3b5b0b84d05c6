use vstd::prelude::*;
use crate::account::AccountId;
use crate::voting::{ProposalError, ProposalId, UserView, Vote, VotingView, name_len};

verus! {

/// Every stored tally adds up: `total = aye + nye`, and none is negative.
pub proof fn lemma_tally_adds_up(m: VotingView, i: int)
    requires
        m.wf(),
        m.has_proposal(i),
    ensures
        m.proposals[i].total_vote == m.proposals[i].vote_aye + m.proposals[i].vote_nye,
        m.proposals[i].vote_aye >= 0,
        m.proposals[i].vote_nye >= 0,
        m.proposals[i].total_vote >= 0,
{
}

/// In a guarded registry at most one proposal is active: any two active
/// proposals are the same one.
pub proof fn lemma_at_most_one_active(m: VotingView, i: int, j: int)
    requires
        m.guarded(),
        m.has_proposal(i),
        m.has_proposal(j),
        m.proposals[i].is_active(),
        m.proposals[j].is_active(),
    ensures
        i == j,
{
}

/// A ballot is counted once: after a successful ballot of `caller` on `id`
/// the pair is recorded and the tally grew by one, and any further ballot of
/// `caller` on `id` fails with `AlreadyVoted` and changes nothing.
pub proof fn lemma_ballot_counted_once(m: VotingView, caller: AccountId, first: Vote, again: Vote, id: ProposalId)
    requires
        m.wf(),
        m.tally_has_room(id),
        m.cast(caller, first, id).1 is Ok,
    ensures
        !m.has_voted(caller, id),
        m.cast(caller, first, id).0.has_voted(caller, id),
        m.cast(caller, first, id).0.proposals[id as int].total_vote == m.proposals[id as int].total_vote + 1,
        m.cast(caller, first, id).0.cast(caller, again, id) == (
            m.cast(caller, first, id).0,
            Err::<(), ProposalError>(ProposalError::AlreadyVoted),
        ),
{
    let m1 = m.cast(caller, first, id).0;
    assert(m1.voted[m.voted.len() as int] == (caller, id));
    assert(m1.users == m.users);
    assert(m1.is_registered(caller));
}

/// Proposal ids follow creation order with no gaps: two successful creations
/// in a row receive ids `n` and `n + 1`, where `n` is the number of
/// proposals before.
pub proof fn lemma_proposal_ids_consecutive(m: VotingView, caller: AccountId, first: String, second: String)
    requires
        m.wf(),
        m.proposals.len() + 2 <= u32::MAX,
        caller == m.owner,
    ensures
        ({
            let n = m.proposals.len() as int;
            let m2 = m.create(caller, first).0.create(caller, second).0;
            &&& m2.proposals.len() == n + 2
            &&& m2.proposals[n].id == n
            &&& m2.proposals[n + 1].id == n + 1
            &&& m2.proposals[n].proposal_name == first
            &&& m2.proposals[n + 1].proposal_name == second
        }),
{
}

/// User ids follow registration order with no gaps: two successful
/// registrations in a row land at ids `n` and `n + 1`.
pub proof fn lemma_user_ids_consecutive(m: VotingView, a: AccountId, first: String, b: AccountId, second: String)
    requires
        m.wf(),
        name_len(first) >= 3,
        name_len(second) >= 3,
    ensures
        ({
            let n = m.users.len() as int;
            let m2 = m.register(a, first).0.register(b, second).0;
            &&& m2.users.len() == n + 2
            &&& m2.users[n] == (UserView { name: first@, account: a })
            &&& m2.users[n + 1] == (UserView { name: second@, account: b })
        }),
{
}

/// Registering a user and then listing all users yields a list that holds
/// that user.
pub proof fn lemma_registered_user_listed(m: VotingView, account: AccountId, name: String)
    requires
        name_len(name) >= 3,
    ensures
        m.register(account, name).1 is Ok,
        m.register(account, name).0.users.contains(UserView { name: name@, account }),
        m.register(account, name).0.is_registered(account),
{
    let m1 = m.register(account, name).0;
    assert(m1.users[m.users.len() as int] == UserView { name: name@, account });
    assert(m1.users[m.users.len() as int].account == account);
}

/// Creating a proposal, activating it, casting one `Aye` ballot on it and
/// retiring it leaves the proposal retired with `aye = 1, nye = 0,
/// total = 1`. It needs the owner, a registered voter, and no proposal
/// active beforehand.
pub proof fn lemma_lifecycle_round_trip(m: VotingView, owner: AccountId, voter: AccountId, name: String)
    requires
        m.wf(),
        m.proposals.len() < u32::MAX,
        owner == m.owner,
        m.guarded(),
        !m.has_active(),
        m.is_registered(voter),
    ensures
        ({
            let id = m.proposals.len() as u32;
            let m1 = m.create(owner, name);
            let m2 = m1.0.activate(owner, id);
            let m3 = m2.0.cast(voter, Vote::Aye, id);
            let m4 = m3.0.retire(owner, id);
            let p = m4.0.proposals[id as int];
            &&& m1.1 is Ok && m2.1 is Ok && m3.1 is Ok && m4.1 is Ok
            &&& p.vote_aye == 1 && p.vote_nye == 0 && p.total_vote == 1
            &&& p.proposal_status && p.voting_finished
            &&& p.proposal_name == name
            &&& m4.0.active_count == 1
        }),
{
    let id = m.proposals.len() as u32;
    let m1 = m.create(owner, name).0;
    let m2 = m1.activate(owner, id).0;
    assert(m2.users == m.users);
    assert(m2.voted == m.voted);
    if m2.has_voted(voter, id) {
        let k = choose|k: int| 0 <= k < m.voted.len() && m.voted[k] == (voter, id);
        assert(m.has_proposal(m.voted[k].1 as int));
    }
}

} // verus!
