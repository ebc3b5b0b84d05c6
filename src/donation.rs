use vstd::prelude::*;
use crate::account::{AccountId, zero_account, zero_address};

verus! {

/// Identifier of a donation record; the first donation gets 1.
pub type DonationId = u32;

/// An attributed contribution: who gave, and how much.
#[derive(Clone, Copy, Debug, PartialEq, Eq, Structural)]
pub struct Donation {
    pub account: AccountId,
    pub amount: u128,
}

impl Donation {
    /// The record that an absent id reads as: the zero account, nothing given.
    pub open spec fn empty() -> Donation {
        Donation { account: zero_account(), amount: 0 }
    }

    /// The record that an absent id reads as.
    pub fn default_record() -> (r: Donation)
        ensures
            r == Donation::empty(),
    {
        Donation { account: zero_address(), amount: 0 }
    }
}

/// The value transfer that the host is asked to make after a donation.
#[derive(Clone, Copy, Debug, PartialEq, Eq, Structural)]
pub struct Transfer {
    pub to: AccountId,
    pub amount: u128,
}

/// The donation ledger: forwards donations to a beneficiary and keeps one
/// record per donation.
pub struct DonationContract {
    owner: AccountId,
    beneficiary: AccountId,
    /// The record of id `k` stands at index `k - 1`.
    donations: Vec<Donation>,
    donation_id: u32,
}

impl DonationContract {
    /// The account that deployed the ledger.
    pub closed spec fn spec_owner(&self) -> AccountId {
        self.owner
    }

    /// The account that donations are forwarded to.
    pub closed spec fn spec_beneficiary(&self) -> AccountId {
        self.beneficiary
    }

    /// The id that the next donation will receive.
    pub closed spec fn spec_next_id(&self) -> nat {
        self.donation_id as nat
    }

    /// The records in id order: the record of id `k` is `records()[k - 1]`.
    pub closed spec fn records(&self) -> Seq<Donation> {
        self.donations@
    }

    /// What id `id` reads as: its record, or the empty record if absent.
    pub open spec fn record_at(&self, id: int) -> Donation {
        if 1 <= id <= self.records().len() {
            self.records()[id - 1]
        } else {
            Donation::empty()
        }
    }

    /// Every record was made by a donation of a positive amount, and ids are
    /// handed out densely from 1.
    pub closed spec fn wf(&self) -> bool {
        &&& self.donation_id as int == self.donations@.len() + 1
        &&& forall|i: int| 0 <= i < self.donations@.len() ==> self.donations@[i].amount > 0
    }

    /// Every stored record holds a positive amount.
    pub proof fn lemma_records_positive(&self, id: int)
        requires
            self.wf(),
            1 <= id <= self.records().len(),
        ensures
            self.record_at(id).amount > 0,
    {
    }

    /// In every well-formed ledger the next id is one past the last record.
    pub proof fn lemma_next_id(&self)
        requires
            self.wf(),
        ensures
            self.spec_next_id() == self.records().len() + 1,
    {
    }

    /// Deploys the ledger: `caller` becomes the owner; no donations yet.
    pub fn new(caller: AccountId, beneficiary: AccountId) -> (r: Self)
        ensures
            r.wf(),
            r.spec_owner() == caller,
            r.spec_beneficiary() == beneficiary,
            r.records() == Seq::<Donation>::empty(),
            r.spec_next_id() == 1,
    {
        DonationContract { owner: caller, beneficiary, donations: Vec::new(), donation_id: 1 }
    }

    /// The current beneficiary.
    pub fn get_beneficiary(&self) -> (r: Option<AccountId>)
        ensures
            r == Some(self.spec_beneficiary()),
    {
        Some(self.beneficiary)
    }

    /// Whether `caller` is the owner, the only account that may rotate the
    /// beneficiary.
    pub fn is_owner(&self, caller: AccountId) -> (r: bool)
        ensures
            r == (caller == self.spec_owner()),
    {
        self.owner == caller
    }

    /// Replaces the beneficiary. Only the owner may call it: any other caller
    /// aborts the transaction, which leaves the ledger as it was.
    pub fn change_beneficiary(&mut self, caller: AccountId, new_beneficiary: AccountId)
        requires
            old(self).wf(),
            caller == old(self).spec_owner(),
        ensures
            final(self).wf(),
            final(self).spec_beneficiary() == new_beneficiary,
            final(self).spec_owner() == old(self).spec_owner(),
            final(self).records() == old(self).records(),
            final(self).spec_next_id() == old(self).spec_next_id(),
    {
        self.beneficiary = new_beneficiary;
    }

    /// Records a donation of `value` by `caller` under a fresh id and returns
    /// the transfer of `value` to the beneficiary that the host must attempt.
    /// A donation of 0 aborts the transaction.
    pub fn donation(&mut self, caller: AccountId, value: u128) -> (r: Transfer)
        requires
            old(self).wf(),
            value > 0,
            old(self).spec_next_id() < u32::MAX,
        ensures
            final(self).wf(),
            final(self).records() == old(self).records().push(
                Donation { account: caller, amount: value },
            ),
            final(self).spec_next_id() == old(self).spec_next_id() + 1,
            final(self).spec_owner() == old(self).spec_owner(),
            final(self).spec_beneficiary() == old(self).spec_beneficiary(),
            r == (Transfer { to: old(self).spec_beneficiary(), amount: value }),
    {
        let donation_id = self.donation_id;
        let mut donated_so_far = self.get_record(donation_id);
        assert(donated_so_far.amount == 0);
        donated_so_far.amount = donated_so_far.amount + value;
        donated_so_far.account = caller;
        self.donations.push(donated_so_far);
        self.donation_id = self.donation_id + 1;
        Transfer { to: self.beneficiary, amount: value }
    }

    /// The record of `donation_id`, or the empty record if there is none.
    fn get_record(&self, donation_id: DonationId) -> (r: Donation)
        requires
            self.wf(),
        ensures
            r == self.record_at(donation_id as int),
    {
        if donation_id >= 1 && ((donation_id - 1) as usize) < self.donations.len() {
            self.donations[(donation_id - 1) as usize]
        } else {
            Donation::default_record()
        }
    }

    /// Who gave under `donation_id` and how much; `(zero, 0)` if the id is
    /// absent.
    pub fn get_donation_amount_by_user(&self, donation_id: DonationId) -> (r: (AccountId, u128))
        requires
            self.wf(),
        ensures
            r == (self.record_at(donation_id as int).account, self.record_at(
                donation_id as int,
            ).amount),
    {
        let d = self.get_record(donation_id);
        (d.account, d.amount)
    }

    /// Every present record for ids `0 .. next_id`, in ascending id order.
    pub fn get_donation(&self) -> (r: Vec<Donation>)
        requires
            self.wf(),
        ensures
            r@ == self.records(),
    {
        let mut result: Vec<Donation> = Vec::new();
        let mut id: u32 = 0;
        while id < self.donation_id
            invariant
                self.wf(),
                id <= self.donation_id,
                result@ == self.records().take(if id == 0 { 0 } else { id - 1 }),
            decreases self.donation_id - id,
        {
            if id >= 1 {
                result.push(self.donations[(id - 1) as usize]);
            }
            id = id + 1;
        }
        assert(result@ == self.records().take(self.records().len() as int));
        result
    }

    /// The id that the next donation will receive.
    pub fn next_donation_id(&self) -> (r: DonationId)
        ensures
            r == self.spec_next_id(),
    {
        self.donation_id
    }

    /// The owner, the account that deployed the ledger.
    pub fn get_owner(&self) -> (r: AccountId)
        ensures
            r == self.spec_owner(),
    {
        self.owner
    }

    /// Rebuilds a ledger from stored parts: `records[k]` is the record of id
    /// `k + 1`. Fails exactly when some record holds no value or the ids
    /// would run out.
    pub fn restore(owner: AccountId, beneficiary: AccountId, records: Vec<Donation>) -> (r: Option<Self>)
        ensures
            r is Some <==> records@.len() < u32::MAX && forall|k: int|
                0 <= k < records@.len() ==> (#[trigger] records@[k]).amount > 0,
            match r {
                Some(c) => c.wf() && c.spec_owner() == owner && c.spec_beneficiary() == beneficiary
                    && c.records() == records@ && c.spec_next_id() == records@.len() + 1,
                None => true,
            },
    {
        if records.len() >= u32::MAX as usize {
            return None;
        }
        let mut k: usize = 0;
        while k < records.len()
            invariant
                k <= records@.len(),
                forall|j: int| 0 <= j < k ==> (#[trigger] records@[j]).amount > 0,
            decreases records@.len() - k,
        {
            if records[k].amount == 0 {
                return None;
            }
            k = k + 1;
        }
        let next = records.len() as u32 + 1;
        Some(DonationContract { owner, beneficiary, donations: records, donation_id: next })
    }
}

} // verus!
