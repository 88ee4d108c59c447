//! Referral records: who referred whom, and what each referrer has earned.

pub mod event;
pub mod ixs;
pub mod state;

pub use event::{RewardsClaimEvent, UserRegisteredEvent};
pub use state::ReferralState;
