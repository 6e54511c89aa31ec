use std::collections::HashMap;

use vstd::prelude::*;

use crate::campaign::Campaign;
use crate::error::CrowdfundError;

verus! {

broadcast use vstd::std_specs::hash::group_hash_axioms;

/// The contract's stored state, as the contracts below speak of it: the
/// counter that gives the next campaign id, and every campaign by id.
pub struct ContractState {
    pub count: u32,
    pub campaigns: Map<u32, Campaign>,
}

impl ContractState {
    /// Every stored campaign is well formed.
    pub open spec fn well_formed(self) -> bool {
        forall|id: u32| #[trigger] self.campaigns.contains_key(id) ==> self.campaigns[id].well_formed()
    }

    /// The same state with `record` stored under `campaign_id`.
    pub open spec fn with_record(self, campaign_id: u32, record: Campaign) -> ContractState {
        ContractState { count: self.count, campaigns: self.campaigns.insert(campaign_id, record) }
    }

    /// The state after `init`: the counter is back at zero, the campaigns stay.
    pub open spec fn initialized(self) -> ContractState {
        ContractState { count: 0, campaigns: self.campaigns }
    }

    /// Why `create` is refused, if it is.
    pub open spec fn create_error(self, authorized: bool) -> Option<CrowdfundError> {
        if !authorized {
            Some(CrowdfundError::Unauthorized)
        } else {
            None
        }
    }

    /// The state after a successful `create`: the new campaign is stored under
    /// the current counter, which then moves on by one.
    pub open spec fn created(
        self,
        creator: String,
        title: String,
        desc: String,
        target: i128,
        deadline: u64,
    ) -> ContractState {
        ContractState {
            count: (self.count + 1) as u32,
            campaigns: self.campaigns.insert(
                self.count,
                Campaign::opened(creator, title, desc, target, deadline),
            ),
        }
    }

    /// Why `donate` is refused, if it is: the guards in the order they are checked.
    pub open spec fn donate_error(
        self,
        campaign_id: u32,
        amount: i128,
        now: u64,
        authorized: bool,
    ) -> Option<CrowdfundError> {
        if !authorized {
            Some(CrowdfundError::Unauthorized)
        } else if amount <= 0 {
            Some(CrowdfundError::InvalidAmount)
        } else if !self.campaigns.contains_key(campaign_id) {
            Some(CrowdfundError::NotFound)
        } else {
            self.campaigns[campaign_id].donation_error(amount, now)
        }
    }

    /// The state after a successful donation: only that campaign's total grows.
    pub open spec fn donated(self, campaign_id: u32, amount: i128) -> ContractState {
        let c = self.campaigns[campaign_id];
        self.with_record(campaign_id, Campaign { raised: (c.raised + amount) as i128, ..c })
    }

    /// Why `claim` is refused, if it is: the guards in the order they are checked.
    pub open spec fn claim_error(self, campaign_id: u32, now: u64, authorized: bool) -> Option<
        CrowdfundError,
    > {
        if !self.campaigns.contains_key(campaign_id) {
            Some(CrowdfundError::NotFound)
        } else if !authorized {
            Some(CrowdfundError::Unauthorized)
        } else {
            self.campaigns[campaign_id].claim_error(now)
        }
    }

    /// The state after a successful claim: only that campaign's flag is set.
    pub open spec fn claimed(self, campaign_id: u32) -> ContractState {
        let c = self.campaigns[campaign_id];
        self.with_record(campaign_id, Campaign { claimed: true, ..c })
    }

    /// What `get_campaign` returns.
    pub open spec fn lookup(self, campaign_id: u32) -> Result<Campaign, CrowdfundError> {
        if self.campaigns.contains_key(campaign_id) {
            Ok(self.campaigns[campaign_id])
        } else {
            Err(CrowdfundError::NotFound)
        }
    }
}

/// The campaign registry and store. Each operation takes, as plain values,
/// what the host supplies: the current ledger time and whether the identity
/// that the call must be authorized by has authenticated.
pub struct CrowdfundContract {
    count: u32,
    campaigns: HashMap<u32, Campaign>,
}

impl View for CrowdfundContract {
    type V = ContractState;

    closed spec fn view(&self) -> ContractState {
        ContractState { count: self.count, campaigns: self.campaigns@ }
    }
}

impl CrowdfundContract {
    #[verifier::type_invariant]
    spec fn inv(self) -> bool {
        forall|id: u32| #[trigger]
            self.campaigns@.contains_key(id) ==> self.campaigns@[id].well_formed()
    }

    /// A store with no campaigns whose counter has never been set.
    pub fn new() -> (r: CrowdfundContract)
        ensures
            r@.count == 0,
            r@.campaigns == Map::<u32, Campaign>::empty(),
            r@.well_formed(),
    {
        CrowdfundContract { count: 0, campaigns: HashMap::new() }
    }

    /// A store with no campaigns loaded yet and the given counter, for a host
    /// that brings its persisted records in one by one.
    pub fn restore(count: u32) -> (r: CrowdfundContract)
        ensures
            r@.count == count,
            r@.campaigns == Map::<u32, Campaign>::empty(),
            r@.well_formed(),
    {
        CrowdfundContract { count, campaigns: HashMap::new() }
    }

    /// Brings in a persisted record under `campaign_id`; a record that is not
    /// well formed is refused and the store left as it was.
    pub fn load_campaign(&mut self, campaign_id: u32, record: Campaign) -> (r: bool)
        ensures
            r == record.well_formed(),
            final(self)@.well_formed(),
            r ==> final(self)@ == old(self)@.with_record(campaign_id, record),
            !r ==> final(self)@ == old(self)@,
    {
        proof {
            use_type_invariant(&*self);
        }
        if record.raised < 0 || (record.raised != 0 && record.raised > record.target) {
            return false;
        }
        self.store(campaign_id, record);
        true
    }

    /// Writes `record` under `campaign_id`.
    fn store(&mut self, campaign_id: u32, record: Campaign)
        requires
            record.well_formed(),
        ensures
            final(self)@ == old(self)@.with_record(campaign_id, record),
    {
        proof {
            use_type_invariant(&*self);
        }
        let mut campaigns = HashMap::new();
        std::mem::swap(&mut campaigns, &mut self.campaigns);
        campaigns.insert(campaign_id, record);
        self.campaigns = campaigns;
    }

    /// Resets the campaign counter to zero; stored campaigns are kept, so a
    /// later `create` may write over the campaign that held the reused id.
    pub fn init(&mut self)
        ensures
            final(self)@ == old(self)@.initialized(),
            final(self)@.well_formed(),
    {
        proof {
            use_type_invariant(&*self);
        }
        self.count = 0;
    }

    /// Registers a new campaign under the next id and returns that id.
    pub fn create(
        &mut self,
        creator: String,
        title: String,
        desc: String,
        target: i128,
        deadline: u64,
        authorized: bool,
    ) -> (r: Result<u32, CrowdfundError>)
        requires
            old(self)@.count < u32::MAX,
        ensures
            final(self)@.well_formed(),
            match old(self)@.create_error(authorized) {
                Some(e) => r == Err::<u32, CrowdfundError>(e) && final(self)@ == old(self)@,
                None => r == Ok::<u32, CrowdfundError>(old(self)@.count) && final(self)@ == old(
                    self,
                )@.created(creator, title, desc, target, deadline),
            },
    {
        proof {
            use_type_invariant(&*self);
        }
        if !authorized {
            return Err(CrowdfundError::Unauthorized);
        }
        let id = self.count;
        let campaign = Campaign::open(creator, title, desc, target, deadline);
        self.store(id, campaign);
        proof {
            use_type_invariant(&*self);
        }
        self.count = id + 1;
        Ok(id)
    }

    /// Adds `amount` to the campaign's total, if every guard holds.
    pub fn donate(&mut self, campaign_id: u32, amount: i128, now: u64, authorized: bool) -> (r:
        Result<(), CrowdfundError>)
        ensures
            final(self)@.well_formed(),
            match old(self)@.donate_error(campaign_id, amount, now, authorized) {
                Some(e) => r == Err::<(), CrowdfundError>(e) && final(self)@ == old(self)@,
                None => r is Ok && final(self)@ == old(self)@.donated(campaign_id, amount),
            },
    {
        proof {
            use_type_invariant(&*self);
        }
        if !authorized {
            return Err(CrowdfundError::Unauthorized);
        }
        if amount <= 0 {
            return Err(CrowdfundError::InvalidAmount);
        }
        let mut campaign = match self.campaigns.get(&campaign_id) {
            Some(c) => c.duplicate(),
            None => return Err(CrowdfundError::NotFound),
        };
        let r = campaign.accept_donation(amount, now);
        if r.is_ok() {
            self.store(campaign_id, campaign);
        }
        r
    }

    /// Returns a copy of the campaign stored under `campaign_id`.
    pub fn get_campaign(&self, campaign_id: u32) -> (r: Result<Campaign, CrowdfundError>)
        ensures
            r == self@.lookup(campaign_id),
            self@.well_formed(),
    {
        proof {
            use_type_invariant(&*self);
        }
        match self.campaigns.get(&campaign_id) {
            Some(c) => Ok(c.duplicate()),
            None => Err(CrowdfundError::NotFound),
        }
    }

    /// Returns the campaign counter: the id the next campaign will get.
    pub fn get_count(&self) -> (r: u32)
        ensures
            r == self@.count,
            self@.well_formed(),
    {
        proof {
            use_type_invariant(&*self);
        }
        self.count
    }

    /// Marks the campaign's proceeds as claimed, if every guard holds.
    /// `authorized` tells whether the campaign's stored creator has
    /// authenticated.
    pub fn claim(&mut self, campaign_id: u32, now: u64, authorized: bool) -> (r: Result<
        (),
        CrowdfundError,
    >)
        ensures
            final(self)@.well_formed(),
            match old(self)@.claim_error(campaign_id, now, authorized) {
                Some(e) => r == Err::<(), CrowdfundError>(e) && final(self)@ == old(self)@,
                None => r is Ok && final(self)@ == old(self)@.claimed(campaign_id),
            },
    {
        proof {
            use_type_invariant(&*self);
        }
        let mut campaign = match self.campaigns.get(&campaign_id) {
            Some(c) => c.duplicate(),
            None => return Err(CrowdfundError::NotFound),
        };
        if !authorized {
            return Err(CrowdfundError::Unauthorized);
        }
        let r = campaign.accept_claim(now);
        if r.is_ok() {
            self.store(campaign_id, campaign);
        }
        r
    }
}

} // verus!
