use vstd::prelude::*;

use crate::campaign::Campaign;
use crate::contract::ContractState;
use crate::error::CrowdfundError;

verus! {

/// Every operation keeps every stored campaign well formed: `init`, a
/// `create`, and any donation or claim that passes its guards.
pub proof fn operations_keep_campaigns_well_formed(
    s: ContractState,
    creator: String,
    title: String,
    desc: String,
    target: i128,
    deadline: u64,
    campaign_id: u32,
    amount: i128,
    now: u64,
    authorized: bool,
)
    requires
        s.well_formed(),
    ensures
        s.initialized().well_formed(),
        s.count < u32::MAX ==> s.created(creator, title, desc, target, deadline).well_formed(),
        s.donate_error(campaign_id, amount, now, authorized) is None ==> s.donated(
            campaign_id,
            amount,
        ).well_formed(),
        s.claim_error(campaign_id, now, authorized) is None ==> s.claimed(
            campaign_id,
        ).well_formed(),
{
}

/// In a well-formed state, a campaign created with a non-negative target has
/// raised between zero and its target.
pub proof fn raised_within_target(s: ContractState, campaign_id: u32)
    requires
        s.well_formed(),
        s.campaigns.contains_key(campaign_id),
        s.campaigns[campaign_id].target >= 0,
    ensures
        0 <= s.campaigns[campaign_id].raised <= s.campaigns[campaign_id].target,
{
    assert(s.campaigns[campaign_id].well_formed());
}

/// A claimed campaign stays claimed through `init`, donations, claims, and
/// any `create` that does not reuse its id.
pub proof fn claimed_stays_claimed(
    s: ContractState,
    k: u32,
    creator: String,
    title: String,
    desc: String,
    target: i128,
    deadline: u64,
    campaign_id: u32,
    amount: i128,
)
    requires
        s.campaigns.contains_key(k),
        s.campaigns[k].claimed,
    ensures
        s.initialized().campaigns[k].claimed,
        k != s.count ==> s.created(creator, title, desc, target, deadline).campaigns[k].claimed,
        s.campaigns.contains_key(campaign_id) ==> s.donated(campaign_id, amount).campaigns[k].claimed,
        s.claimed(campaign_id).campaigns[k].claimed,
{
}

/// Only a successful claim of a campaign sets its flag: after `init`, a
/// `create`, a donation, or a claim of another campaign it is still unset.
pub proof fn only_claim_sets_claimed(
    s: ContractState,
    k: u32,
    creator: String,
    title: String,
    desc: String,
    target: i128,
    deadline: u64,
    campaign_id: u32,
    amount: i128,
    now: u64,
    authorized: bool,
)
    requires
        s.campaigns.contains_key(k),
        !s.campaigns[k].claimed,
    ensures
        !s.initialized().campaigns[k].claimed,
        !s.created(creator, title, desc, target, deadline).campaigns[k].claimed,
        s.campaigns.contains_key(campaign_id) ==> !s.donated(campaign_id, amount).campaigns[k].claimed,
        campaign_id != k ==> !s.claimed(campaign_id).campaigns[k].claimed,
        s.claim_error(k, now, authorized) is None ==> s.claimed(k).campaigns[k].claimed,
{
}

/// After `init` the first campaign created gets id zero, and each further
/// `create` gets the id one above the one before.
pub proof fn ids_start_at_zero_and_increase(
    s: ContractState,
    creator: String,
    title: String,
    desc: String,
    target: i128,
    deadline: u64,
)
    requires
        s.count < u32::MAX,
    ensures
        s.initialized().count == 0,
        s.created(creator, title, desc, target, deadline).count == s.count + 1,
        s.created(creator, title, desc, target, deadline).count > s.count,
{
}

/// Donating exactly what is missing is accepted and fills the campaign; after
/// that, any positive donation before the deadline fails with `TargetReached`.
pub proof fn exact_fill(
    s: ContractState,
    campaign_id: u32,
    now: u64,
    later: u64,
    amount: i128,
)
    requires
        s.well_formed(),
        s.campaigns.contains_key(campaign_id),
        s.campaigns[campaign_id].raised < s.campaigns[campaign_id].target,
        now <= s.campaigns[campaign_id].deadline,
        later <= s.campaigns[campaign_id].deadline,
        amount > 0,
    ensures
        ({
            let c = s.campaigns[campaign_id];
            let fill = (c.target - c.raised) as i128;
            let t = s.donated(campaign_id, fill);
            &&& s.donate_error(campaign_id, fill, now, true) is None
            &&& t.campaigns[campaign_id].raised == c.target
            &&& t.donate_error(campaign_id, amount, later, true) == Some(CrowdfundError::TargetReached)
        }),
{
    assert(s.campaigns[campaign_id].well_formed());
}

/// A donation that would push the total past the target fails with
/// `WouldExceedTarget` when every earlier guard holds.
pub proof fn overshoot_refused(s: ContractState, campaign_id: u32, amount: i128, now: u64)
    requires
        s.campaigns.contains_key(campaign_id),
        amount > 0,
        now <= s.campaigns[campaign_id].deadline,
        s.campaigns[campaign_id].raised < s.campaigns[campaign_id].target,
        s.campaigns[campaign_id].raised + amount > s.campaigns[campaign_id].target,
    ensures
        s.donate_error(campaign_id, amount, now, true) == Some(CrowdfundError::WouldExceedTarget),
{
}

/// A donation after the deadline fails with `CampaignEnded`, and an unclaimed
/// campaign's claim at or before the deadline fails with `CampaignStillActive`.
pub proof fn deadline_enforced(s: ContractState, campaign_id: u32, amount: i128, now: u64)
    requires
        s.campaigns.contains_key(campaign_id),
    ensures
        amount > 0 && now > s.campaigns[campaign_id].deadline ==> s.donate_error(
            campaign_id,
            amount,
            now,
            true,
        ) == Some(CrowdfundError::CampaignEnded),
        !s.campaigns[campaign_id].claimed && now <= s.campaigns[campaign_id].deadline
            ==> s.claim_error(campaign_id, now, true) == Some(CrowdfundError::CampaignStillActive),
{
}

/// A second claim of a campaign fails with `AlreadyClaimed`, and the first
/// leaves the amount raised as it was.
pub proof fn second_claim_refused(
    s: ContractState,
    campaign_id: u32,
    now: u64,
    later: u64,
    authorized: bool,
)
    requires
        s.claim_error(campaign_id, now, authorized) is None,
    ensures
        s.claimed(campaign_id).claim_error(campaign_id, later, true) == Some(
            CrowdfundError::AlreadyClaimed,
        ),
        s.claimed(campaign_id).campaigns[campaign_id].raised == s.campaigns[campaign_id].raised,
{
}

/// Reading, donating to or claiming an id under which nothing is stored
/// fails with `NotFound` (a donation once it is authorized and positive).
pub proof fn unknown_id_not_found(
    s: ContractState,
    campaign_id: u32,
    amount: i128,
    now: u64,
    authorized: bool,
)
    requires
        !s.campaigns.contains_key(campaign_id),
    ensures
        s.lookup(campaign_id) == Err::<Campaign, CrowdfundError>(CrowdfundError::NotFound),
        s.claim_error(campaign_id, now, authorized) == Some(CrowdfundError::NotFound),
        amount > 0 ==> s.donate_error(campaign_id, amount, now, true) == Some(
            CrowdfundError::NotFound,
        ),
{
}

} // verus!
