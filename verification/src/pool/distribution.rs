//! How a trading fee is shared between the protocol and up to three tiers
//! of referrers.

use vstd::prelude::*;
use crate::constants::REWARD_SCALE;
use crate::error::MaxiFarmError;
use crate::main_state::state::MainState;
use crate::math::{lemma_floor_div_bounds, lemma_product_fits};
use crate::pubkey::Pubkey;
use crate::referral::state::ReferralState;

verus! {

/// The parts a trading fee is split into. Together they are the fee.
#[derive(Clone, Copy, Debug, PartialEq, Eq)]
pub struct FeeSplit {
    /// Reward of the direct referrer.
    pub tier1_reward: u64,
    /// Reward of the referrer's referrer.
    pub tier2_reward: u64,
    /// Reward of the referrer one step further up.
    pub tier3_reward: u64,
    /// What is left for the protocol's fee recipient.
    pub protocol_fee: u64,
}

impl FeeSplit {
    /// What the referrers receive together.
    pub open spec fn spec_referral_fee(self) -> int {
        self.tier1_reward + self.tier2_reward + self.tier3_reward
    }

    /// What the referrers receive together.
    pub(crate) fn referral_fee(&self) -> (sum: u64)
        requires
            self.spec_referral_fee() <= u64::MAX,
        ensures
            sum == self.spec_referral_fee(),
    {
        self.tier1_reward + self.tier2_reward + self.tier3_reward
    }
}

/// The part of `fee` that a rate on the reward scale gives, rounded down.
pub open spec fn reward_amount(fee: u64, rate: int) -> int {
    fee * rate / (REWARD_SCALE as int)
}

/// The rate of the direct referrer: what the configuration sets aside for
/// referrers, less the rates of the tiers above that are present. A third
/// tier takes the second tier's rate off as well, present or not.
pub open spec fn tier1_rate(main_state: MainState, has_tier2: bool, has_tier3: bool) -> int {
    if has_tier3 {
        main_state.tier1_reward - main_state.tier2_reward - main_state.tier3_reward
    } else if has_tier2 {
        main_state.tier1_reward - main_state.tier2_reward
    } else {
        main_state.tier1_reward as int
    }
}

/// Reward of the direct referrer, if there is one.
pub open spec fn tier1_amount(
    main_state: MainState,
    fee: u64,
    has_tier1: bool,
    has_tier2: bool,
    has_tier3: bool,
) -> int {
    if has_tier1 {
        reward_amount(fee, tier1_rate(main_state, has_tier2, has_tier3))
    } else {
        0
    }
}

/// Reward of the second tier, if there is one.
pub open spec fn tier2_amount(main_state: MainState, fee: u64, has_tier2: bool) -> int {
    if has_tier2 {
        reward_amount(fee, main_state.tier2_reward as int)
    } else {
        0
    }
}

/// Reward of the third tier, if there is one.
pub open spec fn tier3_amount(main_state: MainState, fee: u64, has_tier3: bool) -> int {
    if has_tier3 {
        reward_amount(fee, main_state.tier3_reward as int)
    } else {
        0
    }
}

/// Whether `fee` can be split: the rate of a direct referrer is not
/// negative, and the rewards together do not exceed the fee.
pub open spec fn split_defined(
    main_state: MainState,
    fee: u64,
    has_tier1: bool,
    has_tier2: bool,
    has_tier3: bool,
) -> bool {
    &&& has_tier1 ==> tier1_rate(main_state, has_tier2, has_tier3) >= 0
    &&& tier1_amount(main_state, fee, has_tier1, has_tier2, has_tier3) + tier2_amount(
        main_state,
        fee,
        has_tier2,
    ) + tier3_amount(main_state, fee, has_tier3) <= fee
}

/// The split of `fee`: each tier that is present receives its reward, and
/// the protocol receives what is left, rounding included.
pub open spec fn fee_split(
    main_state: MainState,
    fee: u64,
    has_tier1: bool,
    has_tier2: bool,
    has_tier3: bool,
) -> FeeSplit {
    let tier1 = tier1_amount(main_state, fee, has_tier1, has_tier2, has_tier3);
    let tier2 = tier2_amount(main_state, fee, has_tier2);
    let tier3 = tier3_amount(main_state, fee, has_tier3);
    FeeSplit {
        tier1_reward: tier1 as u64,
        tier2_reward: tier2 as u64,
        tier3_reward: tier3 as u64,
        protocol_fee: (fee - tier1 - tier2 - tier3) as u64,
    }
}

/// The part of `fee` that `rate` gives, in 128 bits.
fn reward_of(fee: u64, rate: u64) -> (amount: u128)
    ensures
        amount == reward_amount(fee, rate as int),
        amount * REWARD_SCALE <= fee * rate <= 0xFFFF_FFFF_FFFF_FFFE_0000_0000_0000_0001,
{
    proof {
        lemma_product_fits(fee, rate);
        lemma_floor_div_bounds(fee * rate, REWARD_SCALE as int);
    }
    (fee as u128) * (rate as u128) / (REWARD_SCALE as u128)
}

/// Splits `fee` between the tiers that are present and the protocol. Fails
/// where the configured rates leave the direct referrer with less than
/// nothing, or the referrers with more than the fee.
pub fn split_fee(
    main_state: &MainState,
    fee: u64,
    has_tier1: bool,
    has_tier2: bool,
    has_tier3: bool,
) -> (res: Result<FeeSplit, MaxiFarmError>)
    ensures
        split_defined(*main_state, fee, has_tier1, has_tier2, has_tier3) ==> res == Ok::<
            FeeSplit,
            MaxiFarmError,
        >(fee_split(*main_state, fee, has_tier1, has_tier2, has_tier3)),
        !split_defined(*main_state, fee, has_tier1, has_tier2, has_tier3) ==> res == Err::<
            FeeSplit,
            MaxiFarmError,
        >(MaxiFarmError::ArithmeticError),
{
    let tier3: u128 = if has_tier3 {
        reward_of(fee, main_state.tier3_reward)
    } else {
        0
    };
    let tier2: u128 = if has_tier2 {
        reward_of(fee, main_state.tier2_reward)
    } else {
        0
    };
    let taken: u128 = if has_tier3 {
        main_state.tier2_reward as u128 + main_state.tier3_reward as u128
    } else if has_tier2 {
        main_state.tier2_reward as u128
    } else {
        0
    };
    let tier1: u128 = if has_tier1 {
        if taken > main_state.tier1_reward as u128 {
            return Err(MaxiFarmError::ArithmeticError);
        }
        reward_of(fee, (main_state.tier1_reward as u128 - taken) as u64)
    } else {
        0
    };
    let rewards: u128 = tier1 + tier2 + tier3;
    if rewards > fee as u128 {
        return Err(MaxiFarmError::ArithmeticError);
    }
    Ok(
        FeeSplit {
            tier1_reward: tier1 as u64,
            tier2_reward: tier2 as u64,
            tier3_reward: tier3 as u64,
            protocol_fee: (fee as u128 - rewards) as u64,
        },
    )
}

/// Where the rate set aside for referrers is at most the whole fee and
/// covers the rates of the second and the third tier, every fee can be
/// split, and whatever tiers are present the referrers together receive at
/// most the fee. With all three tiers present they receive less than the
/// fee as soon as one of the three rewards is rounded.
pub proof fn lemma_rewards_within_fee(
    main_state: MainState,
    fee: u64,
    has_tier1: bool,
    has_tier2: bool,
    has_tier3: bool,
)
    requires
        main_state.tier1_reward <= REWARD_SCALE,
        main_state.tier2_reward + main_state.tier3_reward <= main_state.tier1_reward,
    ensures
        split_defined(main_state, fee, has_tier1, has_tier2, has_tier3),
        0 <= tier1_amount(main_state, fee, has_tier1, has_tier2, has_tier3),
        0 <= tier2_amount(main_state, fee, has_tier2),
        0 <= tier3_amount(main_state, fee, has_tier3),
        fee_split(main_state, fee, has_tier1, has_tier2, has_tier3).spec_referral_fee() <= fee,
        fee_split(main_state, fee, has_tier1, has_tier2, has_tier3).spec_referral_fee() + fee_split(
            main_state,
            fee,
            has_tier1,
            has_tier2,
            has_tier3,
        ).protocol_fee == fee,
        has_tier1 && has_tier2 && has_tier3 && (fee * main_state.tier3_reward % (
        REWARD_SCALE as int) != 0 || fee * main_state.tier2_reward % (REWARD_SCALE as int) != 0
            || fee * (main_state.tier1_reward - main_state.tier2_reward - main_state.tier3_reward)
            % (REWARD_SCALE as int) != 0) ==> fee_split(
            main_state,
            fee,
            has_tier1,
            has_tier2,
            has_tier3,
        ).spec_referral_fee() < fee,
{
    let s = REWARD_SCALE as int;
    let f = fee as int;
    let r1 = if has_tier1 {
        tier1_rate(main_state, has_tier2, has_tier3)
    } else {
        0
    };
    let r2 = if has_tier2 {
        main_state.tier2_reward as int
    } else {
        0
    };
    let r3 = if has_tier3 {
        main_state.tier3_reward as int
    } else {
        0
    };
    let a1 = f * r1 / s;
    let a2 = f * r2 / s;
    let a3 = f * r3 / s;
    assert(f * 0 == 0);
    assert(a1 == tier1_amount(main_state, fee, has_tier1, has_tier2, has_tier3));
    assert(a2 == tier2_amount(main_state, fee, has_tier2));
    assert(a3 == tier3_amount(main_state, fee, has_tier3));
    lemma_floor_div_bounds(f * r1, s);
    lemma_floor_div_bounds(f * r2, s);
    lemma_floor_div_bounds(f * r3, s);
    vstd::arithmetic::div_mod::lemma_fundamental_div_mod(f * r1, s);
    vstd::arithmetic::div_mod::lemma_fundamental_div_mod(f * r2, s);
    vstd::arithmetic::div_mod::lemma_fundamental_div_mod(f * r3, s);
    assert(0 <= r1 && 0 <= r2 && 0 <= r3 && r1 + r2 + r3 <= s);
    assert(f * r1 + f * r2 + f * r3 <= f * s && 0 <= f * r1 && 0 <= f * r2 && 0 <= f * r3)
        by (nonlinear_arith)
        requires
            0 <= f,
            0 <= r1,
            0 <= r2,
            0 <= r3,
            r1 + r2 + r3 <= s,
    ;
    assert(a1 >= 0 && a2 >= 0 && a3 >= 0) by (nonlinear_arith)
        requires
            0 < s,
            0 <= f * r1 < a1 * s + s,
            0 <= f * r2 < a2 * s + s,
            0 <= f * r3 < a3 * s + s,
    ;
    let total = a1 + a2 + a3;
    assert(total * s == a1 * s + a2 * s + a3 * s) by (nonlinear_arith)
        requires
            total == a1 + a2 + a3,
    ;
    assert(total * s <= f * s);
    assert(total <= f) by (nonlinear_arith)
        requires
            total * s <= f * s,
            0 < s,
    ;
    if has_tier1 && has_tier2 && has_tier3 && (f * r3 % s != 0 || f * r2 % s != 0 || f * r1 % s
        != 0) {
        assert(s * (f * r1 / s) == a1 * s && s * (f * r2 / s) == a2 * s && s * (f * r3 / s) == a3
            * s) by (nonlinear_arith)
            requires
                a1 == f * r1 / s,
                a2 == f * r2 / s,
                a3 == f * r3 / s,
        ;
        vstd::arithmetic::div_mod::lemma_mod_bound(f * r1, s);
        vstd::arithmetic::div_mod::lemma_mod_bound(f * r2, s);
        vstd::arithmetic::div_mod::lemma_mod_bound(f * r3, s);
        assert(total * s < f * s);
        assert(total < f) by (nonlinear_arith)
            requires
                total * s < f * s,
                0 < s,
        ;
    }
}

/// Whether `record` names the user of `upper` as its referrer.
pub open spec fn names_referrer(record: ReferralState, upper: ReferralState) -> bool {
    record.referrer != Pubkey::unset() && upper.user == record.referrer
}

/// The first tier of a trade, as far as it counts: the record handed in as
/// the first tier, where the trader's own record is handed in as well,
/// belongs to the trader, and names the user of that record, who is not the
/// trader, as the trader's referrer.
pub open spec fn counted_first(
    trader: Pubkey,
    own: Option<ReferralState>,
    tier1: Option<ReferralState>,
) -> Option<ReferralState> {
    if own is Some && tier1 is Some && own->Some_0.user == trader && names_referrer(
        own->Some_0,
        tier1->Some_0,
    ) && tier1->Some_0.user != trader {
        tier1
    } else {
        None
    }
}

/// The second tier of a trade, as far as it counts: the record handed in
/// as the second tier, where the first tier counts and names the user of
/// that record as its referrer, who is neither the trader nor the first
/// tier.
pub open spec fn counted_second(
    trader: Pubkey,
    first: Option<ReferralState>,
    tier2: Option<ReferralState>,
) -> Option<ReferralState> {
    if first is Some && tier2 is Some && names_referrer(first->Some_0, tier2->Some_0)
        && tier2->Some_0.user != trader && tier2->Some_0.user != first->Some_0.user {
        tier2
    } else {
        None
    }
}

/// The third tier of a trade, as far as it counts: the record handed in as
/// the third tier, where the second tier counts and names the user of that
/// record as its referrer, who is neither the trader nor one of the tiers
/// below.
pub open spec fn counted_third(
    trader: Pubkey,
    first: Option<ReferralState>,
    second: Option<ReferralState>,
    tier3: Option<ReferralState>,
) -> Option<ReferralState> {
    if first is Some && second is Some && tier3 is Some && names_referrer(
        second->Some_0,
        tier3->Some_0,
    ) && tier3->Some_0.user != trader && tier3->Some_0.user != first->Some_0.user
        && tier3->Some_0.user != second->Some_0.user {
        tier3
    } else {
        None
    }
}

/// The address a tier's record belongs to, unset where the tier is absent.
pub open spec fn referrer_of(tier: Option<ReferralState>) -> Pubkey {
    match tier {
        Some(record) => record.user,
        None => Pubkey::unset(),
    }
}

/// A tier's record with `reward` more earned, where the tier is present.
pub open spec fn credited_tier(tier: Option<ReferralState>, reward: u64) -> Option<ReferralState> {
    match tier {
        Some(record) => Some(record.credited(reward)),
        None => None,
    }
}

/// Whether a tier's record can take `reward` more.
pub open spec fn credit_fits(tier: Option<ReferralState>, reward: u64) -> bool {
    tier matches Some(record) ==> record.earned_rewards + reward <= u64::MAX
}

/// The record handed in for a tier after the trade: credited with the
/// reward where the tier counts, as it was where it does not.
pub open spec fn settled_tier(
    tier: Option<ReferralState>,
    counted: Option<ReferralState>,
    reward: u64,
) -> Option<ReferralState> {
    if counted is Some {
        credited_tier(counted, reward)
    } else {
        tier
    }
}

/// A fee that was shared: its split, who was rewarded in each tier (unset
/// where nobody was), and the records handed in, those of the tiers that
/// count with their rewards added.
#[derive(Clone, Copy, Debug, PartialEq, Eq)]
pub struct Distribution {
    pub split: FeeSplit,
    pub tier1_referrer: Pubkey,
    pub tier2_referrer: Pubkey,
    pub tier3_referrer: Pubkey,
    pub tier1_referral: Option<ReferralState>,
    pub tier2_referral: Option<ReferralState>,
    pub tier3_referral: Option<ReferralState>,
}

/// What sharing the `fee` of a trade ends with. Only the trader's upline is
/// rewarded: the first tier is the referrer that the trader's own record
/// names, the second the referrer that the first tier's record names, the
/// third the referrer that the second tier's record names. A record that
/// is handed in for a tier without being that one counts as absent: it
/// earns nothing and stays as it is, and so do the tiers above it. The fee
/// is split for the tiers that count, and each of their records is credited
/// with its reward, unless the fee cannot be split or a record cannot take
/// its reward.
pub open spec fn distribution(
    main_state: MainState,
    fee: u64,
    trader: Pubkey,
    own: Option<ReferralState>,
    tier1: Option<ReferralState>,
    tier2: Option<ReferralState>,
    tier3: Option<ReferralState>,
) -> Result<Distribution, MaxiFarmError> {
    let first = counted_first(trader, own, tier1);
    let second = counted_second(trader, first, tier2);
    let third = counted_third(trader, first, second, tier3);
    let split = fee_split(main_state, fee, first is Some, second is Some, third is Some);
    if split_defined(main_state, fee, first is Some, second is Some, third is Some) && credit_fits(
        first,
        split.tier1_reward,
    ) && credit_fits(second, split.tier2_reward) && credit_fits(third, split.tier3_reward) {
        Ok(
            Distribution {
                split,
                tier1_referrer: referrer_of(first),
                tier2_referrer: referrer_of(second),
                tier3_referrer: referrer_of(third),
                tier1_referral: settled_tier(tier1, first, split.tier1_reward),
                tier2_referral: settled_tier(tier2, second, split.tier2_reward),
                tier3_referral: settled_tier(tier3, third, split.tier3_reward),
            },
        )
    } else {
        Err(MaxiFarmError::ArithmeticError)
    }
}

/// Whether `record` names the user of `upper` as its referrer.
fn names(record: &ReferralState, upper: &ReferralState) -> (r: bool)
    ensures
        r == names_referrer(*record, *upper),
{
    !record.referrer.is_unset() && upper.user == record.referrer
}

/// The first tier, as far as it counts.
fn count_first(trader: Pubkey, own: Option<ReferralState>, tier1: Option<ReferralState>) -> (first:
    Option<ReferralState>)
    ensures
        first == counted_first(trader, own, tier1),
{
    match (own, tier1) {
        (Some(own), Some(upper)) => {
            if own.user == trader && names(&own, &upper) && upper.user != trader {
                Some(upper)
            } else {
                None
            }
        },
        _ => None,
    }
}

/// The second tier, as far as it counts.
fn count_second(trader: Pubkey, first: Option<ReferralState>, tier2: Option<ReferralState>) -> (second:
    Option<ReferralState>)
    ensures
        second == counted_second(trader, first, tier2),
{
    match (first, tier2) {
        (Some(lower), Some(upper)) => {
            if names(&lower, &upper) && upper.user != trader && upper.user != lower.user {
                Some(upper)
            } else {
                None
            }
        },
        _ => None,
    }
}

/// The third tier, as far as it counts.
fn count_third(
    trader: Pubkey,
    first: Option<ReferralState>,
    second: Option<ReferralState>,
    tier3: Option<ReferralState>,
) -> (third: Option<ReferralState>)
    ensures
        third == counted_third(trader, first, second, tier3),
{
    match (first, second, tier3) {
        (Some(lowest), Some(lower), Some(upper)) => {
            if names(&lower, &upper) && upper.user != trader && upper.user != lowest.user
                && upper.user != lower.user {
                Some(upper)
            } else {
                None
            }
        },
        _ => None,
    }
}

/// The record handed in for a tier after the trade.
fn settle_tier(tier: Option<ReferralState>, counted: Option<ReferralState>, reward: u64) -> (res:
    Result<Option<ReferralState>, MaxiFarmError>)
    ensures
        credit_fits(counted, reward) ==> res == Ok::<Option<ReferralState>, MaxiFarmError>(
            settled_tier(tier, counted, reward),
        ),
        !credit_fits(counted, reward) ==> res == Err::<Option<ReferralState>, MaxiFarmError>(
            MaxiFarmError::ArithmeticError,
        ),
{
    match counted {
        Some(record) => {
            let mut record = record;
            match record.credit(reward) {
                Ok(()) => Ok(Some(record)),
                Err(e) => Err(e),
            }
        },
        None => Ok(tier),
    }
}

/// The address a tier's record belongs to, unset where the tier is absent.
fn tier_referrer(tier: &Option<ReferralState>) -> (key: Pubkey)
    ensures
        key == referrer_of(*tier),
{
    match tier {
        Some(record) => record.user,
        None => Pubkey::default(),
    }
}

/// Shares the `fee` of a trade between the trader's upline and the
/// protocol, and credits the record of each tier that counts with its
/// reward.
pub fn distribute_fee(
    main_state: &MainState,
    fee: u64,
    trader: Pubkey,
    own: Option<ReferralState>,
    tier1: Option<ReferralState>,
    tier2: Option<ReferralState>,
    tier3: Option<ReferralState>,
) -> (res: Result<Distribution, MaxiFarmError>)
    ensures
        res == distribution(*main_state, fee, trader, own, tier1, tier2, tier3),
{
    let first = count_first(trader, own, tier1);
    let second = count_second(trader, first, tier2);
    let third = count_third(trader, first, second, tier3);
    let split = split_fee(main_state, fee, first.is_some(), second.is_some(), third.is_some())?;
    let tier3_referral = settle_tier(tier3, third, split.tier3_reward)?;
    let tier2_referral = settle_tier(tier2, second, split.tier2_reward)?;
    let tier1_referral = settle_tier(tier1, first, split.tier1_reward)?;
    Ok(
        Distribution {
            split,
            tier1_referrer: tier_referrer(&first),
            tier2_referrer: tier_referrer(&second),
            tier3_referrer: tier_referrer(&third),
            tier1_referral,
            tier2_referral,
            tier3_referral,
        },
    )
}

/// Only the trader's upline earns from a trade. Whatever records a trade
/// is handed, a record is credited, and named in the split, only where the
/// chain of referrers leads to it from the trader's own record: the first
/// tier by the trader's record, the second by the first tier's, the third
/// by the second tier's. Every other record stays as it is, its tier
/// receives nothing, and nobody is named for it; the trader's own record is
/// never credited.
pub proof fn lemma_only_the_upline_earns(
    main_state: MainState,
    fee: u64,
    trader: Pubkey,
    own: Option<ReferralState>,
    tier1: Option<ReferralState>,
    tier2: Option<ReferralState>,
    tier3: Option<ReferralState>,
)
    requires
        distribution(main_state, fee, trader, own, tier1, tier2, tier3) is Ok,
    ensures
        ({
            let shared = distribution(main_state, fee, trader, own, tier1, tier2, tier3)->Ok_0;
            let first_counts = own is Some && tier1 is Some && own->Some_0.user == trader
                && names_referrer(own->Some_0, tier1->Some_0);
            let second_counts = first_counts && tier2 is Some && names_referrer(
                tier1->Some_0,
                tier2->Some_0,
            );
            let third_counts = second_counts && tier3 is Some && names_referrer(
                tier2->Some_0,
                tier3->Some_0,
            );
            &&& !first_counts ==> shared.tier1_referral == tier1 && shared.split.tier1_reward == 0
                && shared.tier1_referrer == Pubkey::unset()
            &&& !second_counts ==> shared.tier2_referral == tier2 && shared.split.tier2_reward
                == 0 && shared.tier2_referrer == Pubkey::unset()
            &&& !third_counts ==> shared.tier3_referral == tier3 && shared.split.tier3_reward == 0
                && shared.tier3_referrer == Pubkey::unset()
            &&& tier1 is Some && tier1->Some_0.user == trader ==> shared.tier1_referral == tier1
            &&& tier2 is Some && tier2->Some_0.user == trader ==> shared.tier2_referral == tier2
            &&& tier3 is Some && tier3->Some_0.user == trader ==> shared.tier3_referral == tier3
            &&& (shared.tier1_referral is Some) == (tier1 is Some)
            &&& (shared.tier2_referral is Some) == (tier2 is Some)
            &&& (shared.tier3_referral is Some) == (tier3 is Some)
        }),
{
    assert(fee * 0 == 0);
}

} // verus!
