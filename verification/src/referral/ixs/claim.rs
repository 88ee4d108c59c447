//! Claiming the rewards earned.

use vstd::prelude::*;
use crate::error::MaxiFarmError;
use crate::pubkey::Pubkey;
use crate::referral::event::RewardsClaimEvent;
use crate::referral::state::ReferralState;
use crate::utils::transfer_lamports;

verus! {

/// The records and balances that a claim touches.
#[derive(Clone, Copy, Debug, PartialEq, Eq)]
pub struct AClaimRewards {
    /// Who claims, and is paid.
    pub user: Pubkey,
    /// The record claimed from.
    pub referral_account: ReferralState,
    /// The native balance in which the referral rewards are kept.
    pub custody_lamports: u64,
    /// The native balance of the one who claims.
    pub user_lamports: u64,
}

/// What a claim ends with: all that the record has earned moves from where
/// the rewards are kept to the user of the record, to nobody else, and the
/// record has earned nothing any more. It is refused, in this order, where
/// another one than the user of the record claims, where there is nothing
/// to claim, where less is kept than was earned, and where the user's
/// balance would exceed 64 bits.
pub open spec fn claim_rewards_result(ctx: AClaimRewards, now: i64) -> Result<
    (AClaimRewards, RewardsClaimEvent),
    MaxiFarmError,
> {
    let rewards = ctx.referral_account.earned_rewards;
    if ctx.user != ctx.referral_account.user {
        Err(MaxiFarmError::Unauthorised)
    } else if rewards == 0 {
        Err(MaxiFarmError::NoRewardsAvailable)
    } else if ctx.custody_lamports < rewards {
        Err(MaxiFarmError::InsufficientFund)
    } else if ctx.user_lamports + rewards > u64::MAX {
        Err(MaxiFarmError::ArithmeticError)
    } else {
        Ok(
            (
                AClaimRewards {
                    user: ctx.user,
                    referral_account: ReferralState { earned_rewards: 0, ..ctx.referral_account },
                    custody_lamports: (ctx.custody_lamports - rewards) as u64,
                    user_lamports: (ctx.user_lamports + rewards) as u64,
                },
                RewardsClaimEvent { user: ctx.user, rewards, timestamp: now },
            ),
        )
    }
}

/// Pays out all that the record has earned to its user.
pub fn claim_rewards(ctx: &mut AClaimRewards, now: i64) -> (res: Result<
    RewardsClaimEvent,
    MaxiFarmError,
>)
    ensures
        match claim_rewards_result(*old(ctx), now) {
            Ok((next, event)) => res == Ok::<RewardsClaimEvent, MaxiFarmError>(event) && *final(ctx)
                == next,
            Err(e) => res == Err::<RewardsClaimEvent, MaxiFarmError>(e) && *final(ctx) == *old(ctx),
        },
{
    if ctx.user != ctx.referral_account.user {
        return Err(MaxiFarmError::Unauthorised);
    }
    let reward_amount = ctx.referral_account.earned_rewards;
    if reward_amount == 0 {
        return Err(MaxiFarmError::NoRewardsAvailable);
    }
    let mut custody = ctx.custody_lamports;
    let mut balance = ctx.user_lamports;
    transfer_lamports(&mut custody, &mut balance, reward_amount)?;
    ctx.custody_lamports = custody;
    ctx.user_lamports = balance;
    ctx.referral_account.earned_rewards = 0;
    Ok(RewardsClaimEvent { user: ctx.user, rewards: reward_amount, timestamp: now })
}

/// A claim pays the user of the record, in full and once: where it
/// succeeds, the claimer is the user of the record, exactly what was earned
/// has left the custody and reached the claimer, the record names the same
/// user and referrer as before and has earned nothing, and a second claim
/// right after is refused as there is nothing to claim.
pub proof fn lemma_claim_pays_the_user_once(ctx: AClaimRewards, now: i64, later: i64)
    requires
        claim_rewards_result(ctx, now) is Ok,
    ensures
        ({
            let (next, event) = claim_rewards_result(ctx, now)->Ok_0;
            &&& ctx.user == ctx.referral_account.user
            &&& event.user == ctx.referral_account.user
            &&& event.rewards == ctx.referral_account.earned_rewards
            &&& next.custody_lamports + event.rewards == ctx.custody_lamports
            &&& next.user_lamports == ctx.user_lamports + event.rewards
            &&& next.referral_account.user == ctx.referral_account.user
            &&& next.referral_account.referrer == ctx.referral_account.referrer
            &&& next.referral_account.earned_rewards == 0
            &&& claim_rewards_result(next, later) == Err::<
                (AClaimRewards, RewardsClaimEvent),
                MaxiFarmError,
            >(MaxiFarmError::NoRewardsAvailable)
        }),
{
}

} // verus!
