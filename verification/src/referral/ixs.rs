//! The operations on referral records.

pub mod claim;
pub mod register;

pub use claim::{claim_rewards, AClaimRewards};
pub use register::{register_user, ARegisterUser};
