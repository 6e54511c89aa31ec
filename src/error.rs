use vstd::prelude::*;

verus! {

/// The reasons an operation is refused; a refused operation leaves the
/// stored state untouched.
#[derive(Debug, Clone, Copy, PartialEq, Eq, Structural)]
pub enum CrowdfundError {
    /// The identity the call must be authorized by has not authenticated.
    Unauthorized,
    /// A donation amount that is zero or negative.
    InvalidAmount,
    /// No campaign is stored under the given id.
    NotFound,
    /// The donation arrives after the campaign's deadline.
    CampaignEnded,
    /// The campaign has already raised its whole target.
    TargetReached,
    /// The donation would push the amount raised above the target.
    WouldExceedTarget,
    /// The campaign's proceeds were already claimed.
    AlreadyClaimed,
    /// The claim arrives at or before the campaign's deadline.
    CampaignStillActive,
}

} // verus!
