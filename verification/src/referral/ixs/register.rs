//! Registering a user, with or without a referrer.

use vstd::prelude::*;
use crate::pubkey::Pubkey;
use crate::referral::event::UserRegisteredEvent;
use crate::referral::state::ReferralState;

verus! {

/// The records that a registration touches.
#[derive(Clone, Copy, Debug, PartialEq, Eq)]
pub struct ARegisterUser {
    /// Who registers.
    pub user: Pubkey,
    /// The user's record: an empty one at the first registration.
    pub referral_account: ReferralState,
    /// The record kept under the referrer's address, where a referrer is
    /// named: an empty one if the referrer has none yet.
    pub referrer_account: Option<ReferralState>,
}

/// Whether a registration that names a referrer records it: the first
/// referrer stays, so it does only while the record has none.
pub open spec fn records_referrer(ctx: ARegisterUser, referrer: Option<Pubkey>) -> bool {
    referrer is Some && ctx.referral_account.referrer == Pubkey::unset()
}

/// The user's record after a registration: it belongs to the user, and
/// names the referrer if it named none before.
pub open spec fn registered_record(ctx: ARegisterUser, referrer: Option<Pubkey>) -> ReferralState {
    ReferralState {
        user: ctx.user,
        referrer: if records_referrer(ctx, referrer) {
            referrer->Some_0
        } else {
            ctx.referral_account.referrer
        },
        ..ctx.referral_account
    }
}

/// The referrer's record after a registration: where the referrer is
/// recorded and the record under the referrer's address belongs to nobody
/// yet, it becomes the referrer's, with no referrer of its own.
pub open spec fn anchored_record(ctx: ARegisterUser, referrer: Option<Pubkey>) -> Option<
    ReferralState,
> {
    match ctx.referrer_account {
        Some(record) => if records_referrer(ctx, referrer) && record.user == Pubkey::unset() {
            Some(ReferralState { user: referrer->Some_0, ..record })
        } else {
            Some(record)
        },
        None => None,
    }
}

/// Registers the user. A referrer named at the first registration is kept
/// for good: a later registration changes nothing. What each record has
/// earned is never touched.
pub fn register_user(ctx: &mut ARegisterUser, referrer: Option<Pubkey>, now: i64) -> (event:
    UserRegisteredEvent)
    ensures
        *final(ctx) == (ARegisterUser {
            user: old(ctx).user,
            referral_account: registered_record(*old(ctx), referrer),
            referrer_account: anchored_record(*old(ctx), referrer),
        }),
        event == (UserRegisteredEvent {
            referree: old(ctx).user,
            referrer: registered_record(*old(ctx), referrer).referrer,
            timestamp: now,
        }),
{
    ctx.referral_account.user = ctx.user;
    if let Some(referrer_key) = referrer {
        if ctx.referral_account.referrer.is_unset() {
            ctx.referral_account.referrer = referrer_key;
            if let Some(record) = ctx.referrer_account {
                if record.user.is_unset() {
                    ctx.referrer_account = Some(
                        ReferralState {
                            user: referrer_key,
                            earned_rewards: record.earned_rewards,
                            referrer: record.referrer,
                        },
                    );
                }
            }
        }
    }
    UserRegisteredEvent {
        referree: ctx.user,
        referrer: ctx.referral_account.referrer,
        timestamp: now,
    }
}

/// The first referrer wins: once a record names a referrer, no
/// registration changes it, nor the record of anyone named later.
pub proof fn lemma_first_referrer_stays(ctx: ARegisterUser, referrer: Option<Pubkey>)
    requires
        ctx.referral_account.referrer != Pubkey::unset(),
    ensures
        registered_record(ctx, referrer).referrer == ctx.referral_account.referrer,
        anchored_record(ctx, referrer) == ctx.referrer_account,
{
}

} // verus!
