use vstd::prelude::*;
use crate::account::AccountId;

verus! {

/// Identifier of a proposal: its position in creation order, from 0.
pub type ProposalId = u32;

/// Identifier of a registered user: its position in registration order, from 0.
pub type UserId = u32;

/// A ballot.
#[derive(Clone, Copy, Debug, PartialEq, Eq, Structural)]
pub enum Vote {
    Aye,
    Nye,
}

/// The tagged failures of the voting registry.
#[derive(Clone, Copy, Debug, PartialEq, Eq, Structural)]
pub enum ProposalError {
    NotOwner,
    ProposalNotFound,
    AccountNotRegistered,
    ProposalStatusError,
    AlreadyVoted,
    ShortNameLen,
    ReachActiveProposalLimit,
    StatusNotAgreed,
    VotingFinishedAlready,
    ProposalNotExists,
}

/// A proposal with its tally. `proposal_status` is set on activation,
/// `voting_finished` on retirement.
#[derive(Clone, Debug)]
pub struct Proposal {
    pub proposal_name: String,
    pub vote_aye: u32,
    pub vote_nye: u32,
    pub total_vote: u32,
    pub proposal_status: bool,
    pub voting_finished: bool,
    pub id: ProposalId,
}

/// A registered voter. `voted_proposal` is kept for the layout of stored
/// records and never written.
#[derive(Clone, Debug)]
pub struct User {
    pub user_name: String,
    pub user_account: AccountId,
    pub voted_proposal: Vec<Proposal>,
}

/// Event: a proposal was created.
pub struct ProposalCreated {
    pub proposal: Proposal,
}

/// Event: a user was registered.
pub struct UserCreated {
    pub user: User,
}

/// Event reserved for a status change; never emitted.
pub struct ProposalStatusChanged {
    pub proposal: Proposal,
}

/// Event reserved for a successful vote; never emitted.
pub struct ProposalVoted {
    pub proposal: String,
}

impl Proposal {
    /// Accepts votes: activated and not retired.
    pub open spec fn is_active(&self) -> bool {
        self.proposal_status && !self.voting_finished
    }

    /// The tally adds up, which is the only thing stored proposals must obey.
    pub open spec fn tally_ok(&self) -> bool {
        self.total_vote == self.vote_aye + self.vote_nye
    }

    /// The proposal after one more ballot `vote`.
    pub open spec fn tallied(self, vote: Vote) -> Proposal {
        Proposal {
            vote_aye: if vote == Vote::Aye { (self.vote_aye + 1) as u32 } else { self.vote_aye },
            vote_nye: if vote == Vote::Nye { (self.vote_nye + 1) as u32 } else { self.vote_nye },
            total_vote: (self.total_vote + 1) as u32,
            ..self
        }
    }

    /// The proposal on activation: tallies reset, status set.
    pub open spec fn activated(self) -> Proposal {
        Proposal {
            vote_aye: 0,
            vote_nye: 0,
            total_vote: 0,
            proposal_status: true,
            voting_finished: false,
            ..self
        }
    }

    /// The proposal on retirement: tallies kept, voting finished.
    pub open spec fn retired(self) -> Proposal {
        Proposal { voting_finished: true, ..self }
    }

    /// A copy of the proposal.
    pub fn duplicate(&self) -> (r: Proposal)
        ensures
            r == *self,
    {
        Proposal {
            proposal_name: self.proposal_name.clone(),
            vote_aye: self.vote_aye,
            vote_nye: self.vote_nye,
            total_vote: self.total_vote,
            proposal_status: self.proposal_status,
            voting_finished: self.voting_finished,
            id: self.id,
        }
    }
}

impl User {
    /// A copy of the record; the never-written `voted_proposal` list comes
    /// back empty.
    pub fn duplicate(&self) -> (r: User)
        ensures
            r.user_name == self.user_name,
            r.user_account == self.user_account,
            r.voted_proposal@.len() == 0,
    {
        User {
            user_name: self.user_name.clone(),
            user_account: self.user_account,
            voted_proposal: Vec::new(),
        }
    }
}

/// The length of a name, in characters.
pub open spec fn name_len(name: String) -> nat {
    name@.len()
}

/// Whether `s` has at least `n` characters; reads no more than `n` of them.
fn has_min_chars(s: &str, n: usize) -> (r: bool)
    ensures
        r == (s@.len() >= n),
{
    broadcast use vstd::string::axiom_spec_iter, vstd::string::next_postcondition;
    let mut it = s.chars();
    let mut k: usize = 0;
    while k < n
        invariant
            k <= n,
            k <= s@.len(),
            vstd::std_specs::iter::IteratorSpec::remaining(&it) == s@.skip(k as int),
        decreases n - k,
    {
        match it.next() {
            Some(_) => {
                assert(s@.skip(k as int).drop_first() =~= s@.skip(k + 1));
                k = k + 1;
            },
            None => {
                return false;
            },
        }
    }
    true
}

/// What the registry reads of a user: the name and the account.
pub struct UserView {
    pub name: Seq<char>,
    pub account: AccountId,
}

impl View for User {
    type V = UserView;

    open spec fn view(&self) -> UserView {
        UserView { name: self.user_name@, account: self.user_account }
    }
}

/// The proposal that a creation stores: empty tally, not yet activated.
pub open spec fn fresh_proposal(name: String, id: ProposalId) -> Proposal {
    Proposal {
        proposal_name: name,
        vote_aye: 0,
        vote_nye: 0,
        total_vote: 0,
        proposal_status: false,
        voting_finished: false,
        id,
    }
}

/// The success or the failure of an operation, without its payload.
pub open spec fn outcome<T>(r: Result<T, ProposalError>) -> Result<(), ProposalError> {
    match r {
        Ok(_) => Ok(()),
        Err(e) => Err(e),
    }
}

/// The state of the voting registry as the logic sees it. The proposal of id
/// `i` is `proposals[i]`, the user of id `u` is `users[u]`, and `voted` holds
/// every `(account, proposal id)` that has cast its ballot.
pub struct VotingView {
    pub owner: AccountId,
    pub proposals: Seq<Proposal>,
    pub users: Seq<UserView>,
    pub voted: Seq<(AccountId, ProposalId)>,
    pub active_count: nat,
}

impl VotingView {
    /// The registry right after deployment by `caller`.
    pub open spec fn initial(caller: AccountId) -> VotingView {
        VotingView {
            owner: caller,
            proposals: Seq::empty(),
            users: Seq::empty(),
            voted: Seq::empty(),
            active_count: 1,
        }
    }

    /// A proposal of id `id` has been created.
    pub open spec fn has_proposal(self, id: int) -> bool {
        0 <= id < self.proposals.len()
    }

    /// Some stored user record carries account `a`.
    pub open spec fn is_registered(self, a: AccountId) -> bool {
        exists|u: int| 0 <= u < self.users.len() && #[trigger] self.users[u].account == a
    }

    /// Account `a` has cast its ballot on proposal `id`.
    pub open spec fn has_voted(self, a: AccountId, id: ProposalId) -> bool {
        self.voted.contains((a, id))
    }

    /// Some proposal accepts votes.
    pub open spec fn has_active(self) -> bool {
        exists|i: int| self.has_proposal(i) && #[trigger] self.proposals[i].is_active()
    }

    /// What holds of the registry in every state: ids are positions, every
    /// tally adds up, a proposal is retired only after activation, and each
    /// ballot is recorded once, against a proposal that exists.
    pub open spec fn wf(self) -> bool {
        &&& self.proposals.len() <= u32::MAX
        &&& self.users.len() <= u32::MAX
        &&& 1 <= self.active_count <= 2
        &&& forall|i: int|
            self.has_proposal(i) ==> {
                &&& (#[trigger] self.proposals[i]).id == i
                &&& self.proposals[i].tally_ok()
                &&& self.proposals[i].voting_finished ==> self.proposals[i].proposal_status
            }
        &&& forall|k: int| 0 <= k < self.voted.len() ==> self.has_proposal((#[trigger] self.voted[k]).1 as int)
        &&& self.voted.no_duplicates()
    }

    /// At most one proposal is active, and the activation counter stands at
    /// 2 exactly while one is.
    pub open spec fn guarded(self) -> bool {
        &&& (self.active_count == 2 <==> self.has_active())
        &&& forall|i: int, j: int|
            self.has_proposal(i) && self.has_proposal(j) && (#[trigger] self.proposals[i]).is_active()
                && (#[trigger] self.proposals[j]).is_active() ==> i == j
    }

    /// `create_proposal(name)` called by `caller`.
    pub open spec fn create(self, caller: AccountId, name: String) -> (VotingView, Result<(), ProposalError>) {
        if caller != self.owner {
            (self, Err(ProposalError::NotOwner))
        } else {
            (
                VotingView {
                    proposals: self.proposals.push(fresh_proposal(name, self.proposals.len() as u32)),
                    ..self
                },
                Ok(()),
            )
        }
    }

    /// `change_proposal_status(id)` called by `caller`: activation.
    pub open spec fn activate(self, caller: AccountId, id: ProposalId) -> (VotingView, Result<(), ProposalError>) {
        if caller != self.owner {
            (self, Err(ProposalError::NotOwner))
        } else if self.active_count > 1 {
            (self, Err(ProposalError::ReachActiveProposalLimit))
        } else if !self.has_proposal(id as int) {
            (self, Err(ProposalError::AccountNotRegistered))
        } else if self.proposals[id as int].voting_finished {
            (self, Err(ProposalError::VotingFinishedAlready))
        } else {
            (
                VotingView {
                    proposals: self.proposals.update(id as int, self.proposals[id as int].activated()),
                    active_count: self.active_count + 1,
                    ..self
                },
                Ok(()),
            )
        }
    }

    /// `remove_active_proposal(id)` called by `caller`: retirement. An absent
    /// id succeeds and changes nothing.
    pub open spec fn retire(self, caller: AccountId, id: ProposalId) -> (VotingView, Result<(), ProposalError>) {
        if caller != self.owner {
            (self, Err(ProposalError::NotOwner))
        } else if !self.has_proposal(id as int) {
            (self, Ok(()))
        } else if !self.proposals[id as int].proposal_status {
            (self, Err(ProposalError::StatusNotAgreed))
        } else if self.proposals[id as int].voting_finished {
            (self, Err(ProposalError::VotingFinishedAlready))
        } else {
            (
                VotingView {
                    proposals: self.proposals.update(id as int, self.proposals[id as int].retired()),
                    active_count: 1,
                    ..self
                },
                Ok(()),
            )
        }
    }

    /// `register_user(account, name)`, open to any caller.
    pub open spec fn register(self, account: AccountId, name: String) -> (VotingView, Result<(), ProposalError>) {
        if name_len(name) < 3 {
            (self, Err(ProposalError::ShortNameLen))
        } else {
            (VotingView { users: self.users.push(UserView { name: name@, account }), ..self }, Ok(()))
        }
    }

    /// `vote_proposal(vote, id)` called by `caller`. An absent proposal reads
    /// as one that was never activated.
    pub open spec fn cast(self, caller: AccountId, vote: Vote, id: ProposalId) -> (VotingView, Result<(), ProposalError>) {
        if !(self.has_proposal(id as int) && self.proposals[id as int].proposal_status) {
            (self, Err(ProposalError::ProposalStatusError))
        } else if self.proposals[id as int].voting_finished {
            (self, Err(ProposalError::VotingFinishedAlready))
        } else if !self.is_registered(caller) {
            (self, Err(ProposalError::AccountNotRegistered))
        } else if self.has_voted(caller, id) {
            (self, Err(ProposalError::AlreadyVoted))
        } else {
            (
                VotingView {
                    proposals: self.proposals.update(id as int, self.proposals[id as int].tallied(vote)),
                    voted: self.voted.push((caller, id)),
                    ..self
                },
                Ok(()),
            )
        }
    }

    /// A ballot on `id` still fits in the tally counters.
    pub open spec fn tally_has_room(self, id: ProposalId) -> bool {
        self.has_proposal(id as int) ==> self.proposals[id as int].total_vote < u32::MAX
    }
}

/// The proposal voting registry.
pub struct Voting {
    owner: AccountId,
    active_proposal: u32,
    /// The proposal of id `i` stands at index `i`.
    proposal: Vec<Proposal>,
    /// The user of id `u` stands at index `u`.
    user: Vec<User>,
    voted: Vec<(AccountId, ProposalId)>,
}

impl View for Voting {
    type V = VotingView;

    closed spec fn view(&self) -> VotingView {
        VotingView {
            owner: self.owner,
            proposals: self.proposal@,
            users: self.user@.map_values(|u: User| u@),
            voted: self.voted@,
            active_count: self.active_proposal as nat,
        }
    }
}

impl Voting {
    /// Deploys the registry: `caller` becomes the owner.
    pub fn new(caller: AccountId) -> (r: Self)
        ensures
            r@ == VotingView::initial(caller),
            r@.wf(),
            r@.guarded(),
    {
        let r = Voting {
            owner: caller,
            active_proposal: 1,
            proposal: Vec::new(),
            user: Vec::new(),
            voted: Vec::new(),
        };
        assert(r@.users =~= Seq::<UserView>::empty());
        r
    }

    /// Whether `user` is the owner.
    pub fn check_owner(&self, user: AccountId) -> (r: bool)
        ensures
            r == (user == self@.owner),
    {
        self.owner == user
    }

    /// The owner of the registry.
    pub fn get_account_id(&self) -> (r: AccountId)
        ensures
            r == self@.owner,
    {
        self.owner
    }

    /// The id that the next proposal will receive.
    pub fn get_next_id(&self) -> (r: ProposalId)
        requires
            self@.wf(),
        ensures
            r == self@.proposals.len(),
    {
        self.proposal.len() as u32
    }

    /// The id that the next registered user will receive.
    pub fn get_next_userid(&self) -> (r: UserId)
        requires
            self@.wf(),
        ensures
            r == self@.users.len(),
    {
        self.user.len() as u32
    }

    /// Creates a proposal named `proposal_name` under the next id. Only the
    /// owner may. Returns the event to emit.
    pub fn create_proposal(&mut self, caller: AccountId, proposal_name: String) -> (r: Result<ProposalCreated, ProposalError>)
        requires
            old(self)@.wf(),
            old(self)@.proposals.len() < u32::MAX,
        ensures
            (final(self)@, outcome(r)) == old(self)@.create(caller, proposal_name),
            final(self)@.wf(),
            old(self)@.guarded() ==> final(self)@.guarded(),
            match r {
                Ok(ev) => ev.proposal == fresh_proposal(proposal_name, old(self)@.proposals.len() as u32),
                Err(_) => true,
            },
    {
        if !self.check_owner(caller) {
            return Err(ProposalError::NotOwner);
        }
        let proposal_id = self.proposal.len() as u32;
        let proposal = Proposal {
            proposal_name,
            vote_aye: 0,
            vote_nye: 0,
            total_vote: 0,
            proposal_status: false,
            voting_finished: false,
            id: proposal_id,
        };
        self.proposal.push(proposal.duplicate());
        proof {
            let v = old(self)@.create(caller, proposal_name).0;
            assert(self@.proposals =~= v.proposals);
            assert(self@.users =~= v.users);
            if old(self)@.has_active() {
                let w = choose|i: int| old(self)@.has_proposal(i) && #[trigger] old(self)@.proposals[i].is_active();
                assert(self@.has_proposal(w) && self@.proposals[w].is_active());
            }
            assert forall|i: int| self@.has_proposal(i) && #[trigger] self@.proposals[i].is_active()
                implies old(self)@.has_proposal(i) && old(self)@.proposals[i].is_active() by {
                if i < old(self)@.proposals.len() {
                    assert(self@.proposals[i] == old(self)@.proposals[i]);
                }
            }
        }
        Ok(ProposalCreated { proposal })
    }


    /// Activates proposal `id`: its tallies restart from 0. Only the owner
    /// may, and only while no other proposal is active.
    pub fn change_proposal_status(&mut self, caller: AccountId, id: ProposalId) -> (r: Result<(), ProposalError>)
        requires
            old(self)@.wf(),
        ensures
            (final(self)@, r) == old(self)@.activate(caller, id),
            final(self)@.wf(),
            old(self)@.guarded() ==> final(self)@.guarded(),
    {
        if !self.check_owner(caller) {
            return Err(ProposalError::NotOwner);
        }
        if self.active_proposal > 1 {
            return Err(ProposalError::ReachActiveProposalLimit);
        }
        let idx = id as usize;
        if idx >= self.proposal.len() {
            return Err(ProposalError::AccountNotRegistered);
        }
        if self.proposal[idx].voting_finished {
            return Err(ProposalError::VotingFinishedAlready);
        }
        let p = Proposal {
            proposal_name: self.proposal[idx].proposal_name.clone(),
            vote_aye: 0,
            vote_nye: 0,
            total_vote: 0,
            proposal_status: true,
            voting_finished: false,
            id: self.proposal[idx].id,
        };
        self.proposal.set(idx, p);
        self.active_proposal = self.active_proposal + 1;
        proof {
            let v = old(self)@.activate(caller, id).0;
            assert(self@.proposals =~= v.proposals);
            assert(self@.users =~= v.users);
            assert(self@.has_proposal(id as int) && self@.proposals[id as int].is_active());
            if old(self)@.guarded() {
                assert forall|i: int| self@.has_proposal(i) && #[trigger] self@.proposals[i].is_active()
                    implies i == id as int by {
                    if i != id as int {
                        assert(old(self)@.has_proposal(i) && old(self)@.proposals[i].is_active());
                    }
                }
            }
        }
        Ok(())
    }

    /// Retires proposal `id`: its tallies freeze and the activation counter
    /// returns to 1. Only the owner may. An absent id succeeds and changes
    /// nothing.
    pub fn remove_active_proposal(&mut self, caller: AccountId, id: ProposalId) -> (r: Result<(), ProposalError>)
        requires
            old(self)@.wf(),
        ensures
            (final(self)@, r) == old(self)@.retire(caller, id),
            final(self)@.wf(),
            old(self)@.guarded() ==> final(self)@.guarded(),
    {
        if !self.check_owner(caller) {
            return Err(ProposalError::NotOwner);
        }
        let idx = id as usize;
        if idx < self.proposal.len() {
            if !self.proposal[idx].proposal_status {
                return Err(ProposalError::StatusNotAgreed);
            }
            if self.proposal[idx].voting_finished {
                return Err(ProposalError::VotingFinishedAlready);
            }
            let p = Proposal {
                proposal_name: self.proposal[idx].proposal_name.clone(),
                vote_aye: self.proposal[idx].vote_aye,
                vote_nye: self.proposal[idx].vote_nye,
                total_vote: self.proposal[idx].total_vote,
                proposal_status: self.proposal[idx].proposal_status,
                voting_finished: true,
                id: self.proposal[idx].id,
            };
            self.proposal.set(idx, p);
            self.active_proposal = 1;
        }
        proof {
            let v = old(self)@.retire(caller, id).0;
            assert(self@.proposals =~= v.proposals);
            assert(self@.users =~= v.users);
            if old(self)@.guarded() && old(self)@.has_proposal(id as int) {
                assert forall|i: int| self@.has_proposal(i) implies !(#[trigger] self@.proposals[i]).is_active() by {
                    if i != id as int && self@.proposals[i].is_active() {
                        assert(old(self)@.proposals[i].is_active());
                        assert(old(self)@.proposals[id as int].is_active());
                    }
                }
            }
        }
        Ok(())
    }

    /// Registers `user_account` under `user_name` and the next user id. Any
    /// caller may; the same account may register more than once. Returns the
    /// event to emit.
    pub fn register_user(&mut self, user_account: AccountId, user_name: String) -> (r: Result<UserCreated, ProposalError>)
        requires
            old(self)@.wf(),
            old(self)@.users.len() < u32::MAX,
        ensures
            (final(self)@, outcome(r)) == old(self)@.register(user_account, user_name),
            final(self)@.wf(),
            old(self)@.guarded() ==> final(self)@.guarded(),
            match r {
                Ok(ev) => ev.user@ == (UserView { name: user_name@, account: user_account })
                    && ev.user.voted_proposal@.len() == 0,
                Err(_) => true,
            },
    {
        if !has_min_chars(user_name.as_str(), 3) {
            return Err(ProposalError::ShortNameLen);
        }
        let user = User { user_name, user_account, voted_proposal: Vec::new() };
        self.user.push(user.duplicate());
        proof {
            let v = old(self)@.register(user_account, user_name).0;
            assert(self@.users =~= v.users);
        }
        Ok(UserCreated { user })
    }

    /// Whether some registered user carries `caller`'s account.
    pub fn check_register_user(&self, caller: AccountId) -> (r: bool)
        ensures
            r == self@.is_registered(caller),
    {
        let mut i: usize = 0;
        while i < self.user.len()
            invariant
                i <= self.user@.len(),
                self@.users == self.user@.map_values(|u: User| u@),
                forall|k: int| 0 <= k < i ==> self@.users[k].account != caller,
            decreases self.user@.len() - i,
        {
            if self.user[i].user_account == caller {
                assert(self@.users[i as int].account == caller);
                return true;
            }
            i = i + 1;
        }
        false
    }

    /// Whether `caller` has already voted on `id`.
    fn has_voted(&self, caller: AccountId, id: ProposalId) -> (r: bool)
        ensures
            r == self@.has_voted(caller, id),
    {
        let mut i: usize = 0;
        while i < self.voted.len()
            invariant
                i <= self.voted@.len(),
                self@.voted == self.voted@,
                forall|k: int| 0 <= k < i ==> self.voted@[k] != (caller, id),
            decreases self.voted@.len() - i,
        {
            let (a, p) = self.voted[i];
            if a == caller && p == id {
                assert(self.voted@[i as int] == (caller, id));
                return true;
            }
            i = i + 1;
        }
        false
    }

    /// Casts `caller`'s ballot `vote` on proposal `id`. The proposal must be
    /// active and the caller registered, and each account votes once per
    /// proposal.
    pub fn vote_proposal(&mut self, caller: AccountId, vote: Vote, id: ProposalId) -> (r: Result<(), ProposalError>)
        requires
            old(self)@.wf(),
            old(self)@.tally_has_room(id),
        ensures
            (final(self)@, r) == old(self)@.cast(caller, vote, id),
            final(self)@.wf(),
            old(self)@.guarded() ==> final(self)@.guarded(),
    {
        let idx = id as usize;
        if idx >= self.proposal.len() || !self.proposal[idx].proposal_status {
            return Err(ProposalError::ProposalStatusError);
        }
        if self.proposal[idx].voting_finished {
            return Err(ProposalError::VotingFinishedAlready);
        }
        if !self.check_register_user(caller) {
            return Err(ProposalError::AccountNotRegistered);
        }
        if self.has_voted(caller, id) {
            return Err(ProposalError::AlreadyVoted);
        }
        let p = match vote {
            Vote::Aye => Proposal {
                proposal_name: self.proposal[idx].proposal_name.clone(),
                vote_aye: self.proposal[idx].vote_aye + 1,
                vote_nye: self.proposal[idx].vote_nye,
                total_vote: self.proposal[idx].total_vote + 1,
                proposal_status: self.proposal[idx].proposal_status,
                voting_finished: self.proposal[idx].voting_finished,
                id: self.proposal[idx].id,
            },
            Vote::Nye => Proposal {
                proposal_name: self.proposal[idx].proposal_name.clone(),
                vote_aye: self.proposal[idx].vote_aye,
                vote_nye: self.proposal[idx].vote_nye + 1,
                total_vote: self.proposal[idx].total_vote + 1,
                proposal_status: self.proposal[idx].proposal_status,
                voting_finished: self.proposal[idx].voting_finished,
                id: self.proposal[idx].id,
            },
        };
        self.proposal.set(idx, p);
        self.voted.push((caller, id));
        proof {
            let v = old(self)@.cast(caller, vote, id).0;
            assert(self@.proposals =~= v.proposals);
            assert(self@.users =~= v.users);
            assert(self@.voted =~= v.voted);
            if old(self)@.has_active() {
                let w = choose|i: int| old(self)@.has_proposal(i) && #[trigger] old(self)@.proposals[i].is_active();
                assert(self@.has_proposal(w) && self@.proposals[w].is_active());
            }
            assert forall|k: int| 0 <= k < self@.voted.len() implies self@.has_proposal(
                (#[trigger] self@.voted[k]).1 as int,
            ) by {
                if k < old(self)@.voted.len() {
                    assert(old(self)@.voted[k] == self@.voted[k]);
                }
            }
            let n = old(self)@.voted.len() as int;
            assert forall|a: int, b: int|
                0 <= a < self@.voted.len() && 0 <= b < self@.voted.len() && a != b
                implies #[trigger] self@.voted[a] != #[trigger] self@.voted[b] by {
                if a < n && b < n {
                    assert(old(self)@.voted[a] == self@.voted[a]);
                    assert(old(self)@.voted[b] == self@.voted[b]);
                } else if a < n {
                    assert(old(self)@.voted[a] == self@.voted[a]);
                } else if b < n {
                    assert(old(self)@.voted[b] == self@.voted[b]);
                }
            }
            assert forall|i: int| self@.has_proposal(i) && #[trigger] self@.proposals[i].is_active()
                implies old(self)@.has_proposal(i) && old(self)@.proposals[i].is_active() by {
                if i != id as int {
                    assert(self@.proposals[i] == old(self)@.proposals[i]);
                }
            }
        }
        Ok(())
    }

    /// Every proposal that has been activated (active or retired), in
    /// ascending id order.
    pub fn get_active_proposal(&self) -> (r: Vec<Proposal>)
        ensures
            r@ == self@.proposals.filter(|p: Proposal| p.proposal_status),
    {
        let mut result: Vec<Proposal> = Vec::new();
        let mut i: usize = 0;
        while i < self.proposal.len()
            invariant
                i <= self.proposal@.len(),
                self@.proposals == self.proposal@,
                result@ == self.proposal@.take(i as int).filter(|p: Proposal| p.proposal_status),
            decreases self.proposal@.len() - i,
        {
            let ghost prev = result@;
            if self.proposal[i].proposal_status {
                result.push(self.proposal[i].duplicate());
            }
            proof {
                let s1 = self.proposal@.take(i + 1);
                assert(s1.drop_last() =~= self.proposal@.take(i as int));
                assert(s1.last() == self.proposal@[i as int]);
                reveal_with_fuel(Seq::filter, 1);
                assert(s1.filter(|p: Proposal| p.proposal_status) == if s1.last().proposal_status {
                    prev.push(s1.last())
                } else {
                    prev
                });
            }
            i = i + 1;
        }
        assert(self.proposal@.take(i as int) =~= self.proposal@);
        result
    }

    /// Every proposal, in ascending id order.
    pub fn get_all_proposal(&self) -> (r: Vec<Proposal>)
        ensures
            r@ == self@.proposals,
    {
        let mut result: Vec<Proposal> = Vec::new();
        let mut i: usize = 0;
        while i < self.proposal.len()
            invariant
                i <= self.proposal@.len(),
                self@.proposals == self.proposal@,
                result@ == self.proposal@.take(i as int),
            decreases self.proposal@.len() - i,
        {
            result.push(self.proposal[i].duplicate());
            i = i + 1;
            assert(result@ =~= self.proposal@.take(i as int));
        }
        assert(self.proposal@.take(i as int) =~= self.proposal@);
        result
    }

    /// Every registered user, in ascending id order.
    pub fn get_all_users(&self) -> (r: Vec<User>)
        ensures
            r@.len() == self@.users.len(),
            forall|u: int| 0 <= u < r@.len() ==> (#[trigger] r@[u])@ == self@.users[u],
            forall|u: int| 0 <= u < r@.len() ==> (#[trigger] r@[u]).voted_proposal@.len() == 0,
    {
        let mut result: Vec<User> = Vec::new();
        let mut i: usize = 0;
        while i < self.user.len()
            invariant
                i <= self.user@.len(),
                self@.users == self.user@.map_values(|u: User| u@),
                result@.len() == i,
                forall|u: int| 0 <= u < i ==> (#[trigger] result@[u])@ == self@.users[u],
                forall|u: int| 0 <= u < i ==> (#[trigger] result@[u]).voted_proposal@.len() == 0,
            decreases self.user@.len() - i,
        {
            let u = self.user[i].duplicate();
            proof {
                assert(u@ == self@.users[i as int]);
            }
            result.push(u);
            i = i + 1;
        }
        result
    }

    /// The activation counter: 1 at rest, 2 while a proposal is active.
    pub fn active_count(&self) -> (r: u32)
        ensures
            r == self@.active_count,
    {
        self.active_proposal
    }

    /// Every recorded ballot as `(account, proposal id)`, in the order cast.
    pub fn voted_pairs(&self) -> (r: Vec<(AccountId, ProposalId)>)
        ensures
            r@ == self@.voted,
    {
        let mut r: Vec<(AccountId, ProposalId)> = Vec::new();
        let mut k: usize = 0;
        while k < self.voted.len()
            invariant
                k <= self.voted@.len(),
                self@.voted == self.voted@,
                r@ == self.voted@.take(k as int),
            decreases self.voted@.len() - k,
        {
            r.push(self.voted[k]);
            k = k + 1;
            assert(r@ =~= self.voted@.take(k as int));
        }
        assert(self.voted@.take(k as int) =~= self.voted@);
        r
    }

    /// Rebuilds a registry from stored parts. Succeeds exactly when they
    /// form a well-formed registry.
    pub fn restore(
        owner: AccountId,
        active_count: u32,
        proposals: Vec<Proposal>,
        users: Vec<User>,
        voted: Vec<(AccountId, ProposalId)>,
    ) -> (r: Option<Self>)
        ensures
            ({
                let v = VotingView {
                    owner,
                    proposals: proposals@,
                    users: users@.map_values(|u: User| u@),
                    voted: voted@,
                    active_count: active_count as nat,
                };
                &&& r is Some <==> v.wf()
                &&& r matches Some(s) ==> s@ == v
            }),
    {
        let ghost v = VotingView {
            owner,
            proposals: proposals@,
            users: users@.map_values(|u: User| u@),
            voted: voted@,
            active_count: active_count as nat,
        };
        if proposals.len() > u32::MAX as usize || users.len() > u32::MAX as usize || active_count < 1
            || active_count > 2 {
            return None;
        }
        if !proposals_ok(&proposals) {
            return None;
        }
        if !ballots_ok(&voted, proposals.len()) {
            return None;
        }
        let r = Voting { owner, active_proposal: active_count, proposal: proposals, user: users, voted };
        assert(r@.users =~= v.users);
        Some(r)
    }
}

/// Whether every stored proposal sits at its own id, has a tally that adds
/// up, and is retired only if activated.
fn proposals_ok(ps: &Vec<Proposal>) -> (b: bool)
    ensures
        b == forall|j: int|
            0 <= j < ps@.len() ==> {
                &&& (#[trigger] ps@[j]).id == j
                &&& ps@[j].tally_ok()
                &&& ps@[j].voting_finished ==> ps@[j].proposal_status
            },
{
    let mut i: usize = 0;
    while i < ps.len()
        invariant
            i <= ps@.len(),
            forall|j: int|
                0 <= j < i ==> {
                    &&& (#[trigger] ps@[j]).id == j
                    &&& ps@[j].tally_ok()
                    &&& ps@[j].voting_finished ==> ps@[j].proposal_status
                },
        decreases ps@.len() - i,
    {
        let p = &ps[i];
        if p.id as usize != i || p.total_vote as u64 != p.vote_aye as u64 + p.vote_nye as u64 || (
        p.voting_finished && !p.proposal_status) {
            return false;
        }
        i = i + 1;
    }
    true
}

/// Whether every ballot names one of the first `n` proposals and no ballot
/// is recorded twice.
fn ballots_ok(voted: &Vec<(AccountId, ProposalId)>, n: usize) -> (b: bool)
    ensures
        b == ((forall|j: int| 0 <= j < voted@.len() ==> ((#[trigger] voted@[j]).1 as int) < n)
            && voted@.no_duplicates()),
{
    let mut k: usize = 0;
    while k < voted.len()
        invariant
            k <= voted@.len(),
            forall|j: int| 0 <= j < k ==> ((#[trigger] voted@[j]).1 as int) < n,
            forall|a: int, b: int|
                0 <= a < k && 0 <= b < voted@.len() && a != b ==> #[trigger] voted@[a]
                    != #[trigger] voted@[b],
        decreases voted@.len() - k,
    {
        if voted[k].1 as usize >= n {
            return false;
        }
        let mut m: usize = 0;
        while m < voted.len()
            invariant
                k < voted@.len(),
                m <= voted@.len(),
                forall|b: int| 0 <= b < m && b != k ==> voted@[k as int] != #[trigger] voted@[b],
            decreases voted@.len() - m,
        {
            if m != k && voted[m].0 == voted[k].0 && voted[m].1 == voted[k].1 {
                assert(voted@[m as int] == voted@[k as int]);
                return false;
            }
            m = m + 1;
        }
        k = k + 1;
    }
    true
}

} // verus!
