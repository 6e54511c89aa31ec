use vstd::prelude::*;
use crate::error::CrowdfundError;

verus! {

/// One funding effort, as it is persisted under its campaign id.
#[derive(Debug, Clone)]
pub struct Campaign {
    /// The identity that created the campaign and alone may claim it.
    pub creator: String,
    pub title: String,
    pub desc: String,
    /// The funding goal.
    pub target: i128,
    /// The last ledger time at which donations are accepted.
    pub deadline: u64,
    /// The total donated so far.
    pub raised: i128,
    /// Whether the creator has claimed the proceeds.
    pub claimed: bool,
}

/// The keys under which the contract's records are persisted.
#[derive(Debug, Clone, Copy, PartialEq, Eq, Structural)]
pub enum DataKey {
    Campaign(u32),
    CampCount,
    Donors(u32),
}

impl Campaign {
    /// What every stored campaign satisfies: nothing negative was raised, and
    /// anything raised at all stays within the target.
    pub open spec fn well_formed(self) -> bool {
        &&& 0 <= self.raised
        &&& (self.raised == 0 || self.raised <= self.target)
    }

    /// A fresh campaign: nothing raised, nothing claimed.
    pub open spec fn opened(
        creator: String,
        title: String,
        desc: String,
        target: i128,
        deadline: u64,
    ) -> Campaign {
        Campaign { creator, title, desc, target, deadline, raised: 0, claimed: false }
    }

    /// The first guard that a donation of `amount` at time `now` breaks, once
    /// the donor is authenticated, the amount is positive and the campaign found.
    pub open spec fn donation_error(self, amount: i128, now: u64) -> Option<CrowdfundError> {
        if now > self.deadline {
            Some(CrowdfundError::CampaignEnded)
        } else if self.raised >= self.target {
            Some(CrowdfundError::TargetReached)
        } else if self.raised + amount > self.target {
            Some(CrowdfundError::WouldExceedTarget)
        } else {
            None
        }
    }

    /// The first guard that a claim at time `now` breaks, once the campaign is
    /// found and its creator authenticated.
    pub open spec fn claim_error(self, now: u64) -> Option<CrowdfundError> {
        if self.claimed {
            Some(CrowdfundError::AlreadyClaimed)
        } else if now <= self.deadline {
            Some(CrowdfundError::CampaignStillActive)
        } else {
            None
        }
    }

    /// Builds a fresh campaign.
    pub fn open(creator: String, title: String, desc: String, target: i128, deadline: u64) -> (r:
        Campaign)
        ensures
            r == Campaign::opened(creator, title, desc, target, deadline),
            r.well_formed(),
    {
        Campaign { creator, title, desc, target, deadline, raised: 0, claimed: false }
    }

    /// A field-by-field copy of the record.
    pub fn duplicate(&self) -> (r: Campaign)
        ensures
            r == *self,
    {
        Campaign {
            creator: self.creator.clone(),
            title: self.title.clone(),
            desc: self.desc.clone(),
            target: self.target,
            deadline: self.deadline,
            raised: self.raised,
            claimed: self.claimed,
        }
    }

    /// Adds `amount` to what was raised, or reports the first guard it breaks.
    pub fn accept_donation(&mut self, amount: i128, now: u64) -> (r: Result<(), CrowdfundError>)
        requires
            old(self).well_formed(),
            amount > 0,
        ensures
            final(self).well_formed(),
            match old(self).donation_error(amount, now) {
                Some(e) => r == Err::<(), CrowdfundError>(e) && *final(self) == *old(self),
                None => r is Ok && *final(self) == (Campaign {
                    raised: (old(self).raised + amount) as i128,
                    ..*old(self)
                }),
            },
    {
        if now > self.deadline {
            return Err(CrowdfundError::CampaignEnded);
        }
        if self.raised >= self.target {
            return Err(CrowdfundError::TargetReached);
        }
        // `target - raised` is positive here and cannot overflow.
        if amount > self.target - self.raised {
            return Err(CrowdfundError::WouldExceedTarget);
        }
        self.raised = self.raised + amount;
        Ok(())
    }

    /// Marks the proceeds as claimed, or reports the first guard the claim breaks.
    pub fn accept_claim(&mut self, now: u64) -> (r: Result<(), CrowdfundError>)
        requires
            old(self).well_formed(),
        ensures
            final(self).well_formed(),
            match old(self).claim_error(now) {
                Some(e) => r == Err::<(), CrowdfundError>(e) && *final(self) == *old(self),
                None => r is Ok && *final(self) == (Campaign { claimed: true, ..*old(self) }),
            },
    {
        if self.claimed {
            return Err(CrowdfundError::AlreadyClaimed);
        }
        if now <= self.deadline {
            return Err(CrowdfundError::CampaignStillActive);
        }
        self.claimed = true;
        Ok(())
    }
}

} // verus!
