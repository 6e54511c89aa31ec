//! A crowdfunding campaign state machine: creators register a goal and a
//! deadline, donors contribute toward the goal, and the creator claims the
//! proceeds once the deadline has passed.

mod campaign;
mod contract;
mod error;
pub mod laws;

pub use campaign::{Campaign, DataKey};
pub use contract::{ContractState, CrowdfundContract};
pub use error::CrowdfundError;
