use maxi_farm::pool::distribution::{distribute_fee, split_fee, FeeSplit};
use maxi_farm::{MainState, MaxiFarmError, Pubkey, ReferralState};

fn split_config(tier1: u64, tier2: u64, tier3: u64) -> MainState {
    let owner = Pubkey::new_from_array([9; 32]);
    MainState {
        owner,
        signer: owner,
        withdrawer: owner,
        trading_fee: 50,
        fee_recipient: owner,
        tier1_reward: tier1,
        tier2_reward: tier2,
        tier3_reward: tier3,
    }
}

fn split_record(tag: u8, earned: u64) -> ReferralState {
    ReferralState {
        user: Pubkey::new_from_array([tag; 32]),
        earned_rewards: earned,
        referrer: Pubkey::new_from_array([tag + 1; 32]),
    }
}

fn split_trader() -> Pubkey {
    Pubkey::new_from_array([100; 32])
}

fn split_own() -> ReferralState {
    ReferralState { user: split_trader(), ..split_record(0, 99) }
}

#[test]
fn fee_without_referrers_goes_to_the_protocol() {
    let config = split_config(2_500, 350, 300);
    assert_eq!(
        split_fee(&config, 12_345, false, false, false),
        Ok(FeeSplit { tier1_reward: 0, tier2_reward: 0, tier3_reward: 0, protocol_fee: 12_345 })
    );
}

#[test]
fn fee_with_one_tier_gives_it_the_whole_referral_share() {
    let config = split_config(2_500, 350, 300);
    assert_eq!(
        split_fee(&config, 12_345, true, false, false),
        Ok(FeeSplit { tier1_reward: 3_086, tier2_reward: 0, tier3_reward: 0, protocol_fee: 9_259 })
    );
}

#[test]
fn fee_with_two_tiers_takes_the_second_share_off_the_first() {
    let config = split_config(2_500, 350, 300);
    assert_eq!(
        split_fee(&config, 12_345, true, true, false),
        Ok(FeeSplit {
            tier1_reward: 2_654,
            tier2_reward: 432,
            tier3_reward: 0,
            protocol_fee: 9_259
        })
    );
}

#[test]
fn fee_with_three_tiers_takes_both_shares_off_the_first() {
    let config = split_config(2_500, 350, 300);
    assert_eq!(
        split_fee(&config, 12_345, true, true, true),
        Ok(FeeSplit {
            tier1_reward: 2_283,
            tier2_reward: 432,
            tier3_reward: 370,
            protocol_fee: 9_260
        })
    );
    assert_eq!(
        split_fee(&config, 5_000_000, true, true, true),
        Ok(FeeSplit {
            tier1_reward: 925_000,
            tier2_reward: 175_000,
            tier3_reward: 150_000,
            protocol_fee: 3_750_000
        })
    );
}

#[test]
fn fee_with_a_third_tier_alone_still_takes_the_second_share_off_the_first() {
    let config = split_config(2_500, 350, 300);
    assert_eq!(
        split_fee(&config, 10_000, true, false, true),
        Ok(FeeSplit {
            tier1_reward: 1_850,
            tier2_reward: 0,
            tier3_reward: 300,
            protocol_fee: 7_850
        })
    );
    assert_eq!(
        split_fee(&config, 10_000, false, true, true),
        Ok(FeeSplit { tier1_reward: 0, tier2_reward: 350, tier3_reward: 300, protocol_fee: 9_350 })
    );
}

#[test]
fn rewards_never_exceed_the_fee() {
    let config = split_config(2_500, 350, 300);
    let fees: [u64; 8] = [0, 1, 3, 28, 9_999, 10_000, 12_345, u64::MAX];
    for fee in fees {
        for mask in 0..8u8 {
            let split =
                split_fee(&config, fee, mask & 1 != 0, mask & 2 != 0, mask & 4 != 0).unwrap();
            let rewards = split.tier1_reward as u128
                + split.tier2_reward as u128
                + split.tier3_reward as u128;
            assert!(rewards <= fee as u128);
            assert_eq!(rewards + split.protocol_fee as u128, fee as u128);
        }
    }
}

#[test]
fn rounded_rewards_of_a_full_chain_fall_short_of_the_fee() {
    let config = split_config(10_000, 3_333, 3_333);
    let split = split_fee(&config, 10, true, true, true).unwrap();
    assert_eq!(split.tier1_reward + split.tier2_reward + split.tier3_reward, 9);
    assert_eq!(split.protocol_fee, 1);
    let exact = split_fee(&config, 10_000, true, true, true).unwrap();
    assert_eq!(exact.tier1_reward + exact.tier2_reward + exact.tier3_reward, 10_000);
    assert_eq!(exact.protocol_fee, 0);
}

#[test]
fn rates_that_leave_the_first_tier_less_than_nothing_are_refused() {
    let config = split_config(500, 350, 300);
    assert_eq!(split_fee(&config, 100, true, true, true), Err(MaxiFarmError::ArithmeticError));
    assert_eq!(split_fee(&config, 100, true, false, true), Err(MaxiFarmError::ArithmeticError));
    assert!(split_fee(&config, 100, true, true, false).is_ok());
    assert!(split_fee(&config, 100, false, true, true).is_ok());
    let low = split_config(300, 350, 0);
    assert_eq!(split_fee(&low, 100, true, true, false), Err(MaxiFarmError::ArithmeticError));
}

#[test]
fn rates_that_give_away_more_than_the_fee_are_refused() {
    let config = split_config(20_000, 0, 0);
    assert_eq!(split_fee(&config, 100, true, false, false), Err(MaxiFarmError::ArithmeticError));
    assert!(split_fee(&config, 0, true, false, false).is_ok());
}

#[test]
fn distribution_credits_each_tier_of_the_upline() {
    let config = split_config(2_500, 350, 300);
    let own = split_own();
    let shared = distribute_fee(
        &config,
        12_345,
        split_trader(),
        Some(own),
        Some(split_record(1, 10)),
        Some(split_record(2, 20)),
        Some(split_record(3, 30)),
    )
    .unwrap();
    assert_eq!(shared.tier1_referral, Some(split_record(1, 10 + 2_283)));
    assert_eq!(shared.tier2_referral, Some(split_record(2, 20 + 432)));
    assert_eq!(shared.tier3_referral, Some(split_record(3, 30 + 370)));
    assert_eq!(shared.tier1_referrer, split_record(1, 0).user);
    assert_eq!(shared.tier2_referrer, split_record(2, 0).user);
    assert_eq!(shared.tier3_referrer, split_record(3, 0).user);
    assert_eq!(shared.split.protocol_fee, 9_260);

    let alone = distribute_fee(
        &config,
        12_345,
        split_trader(),
        Some(own),
        Some(split_record(1, 10)),
        None,
        None,
    )
    .unwrap();
    assert_eq!(alone.tier1_referral, Some(split_record(1, 10 + 3_086)));
    assert_eq!(alone.tier2_referral, None);
    assert_eq!(alone.tier3_referral, None);
    assert_eq!(alone.tier2_referrer, Pubkey::default());
}

#[test]
fn distribution_skips_records_outside_the_chain() {
    let config = split_config(2_500, 350, 300);
    let own = split_own();
    // The third record is not the referrer of the second.
    let shared = distribute_fee(
        &config,
        12_345,
        split_trader(),
        Some(own),
        Some(split_record(1, 10)),
        Some(split_record(2, 20)),
        Some(split_record(7, 30)),
    )
    .unwrap();
    assert_eq!(shared.tier1_referral, Some(split_record(1, 10 + 2_654)));
    assert_eq!(shared.tier2_referral, Some(split_record(2, 20 + 432)));
    assert_eq!(shared.tier3_referral, Some(split_record(7, 30)));
    assert_eq!(shared.tier3_referrer, Pubkey::default());
    assert_eq!(shared.split.tier3_reward, 0);
    // The second record is not the referrer of the first: the third does
    // not count either, though the second names it.
    let shared = distribute_fee(
        &config,
        12_345,
        split_trader(),
        Some(own),
        Some(split_record(1, 10)),
        Some(split_record(6, 20)),
        Some(split_record(7, 30)),
    )
    .unwrap();
    assert_eq!(shared.tier1_referral, Some(split_record(1, 10 + 3_086)));
    assert_eq!(shared.tier2_referral, Some(split_record(6, 20)));
    assert_eq!(shared.tier3_referral, Some(split_record(7, 30)));
    assert_eq!(shared.split.protocol_fee, 9_259);
    // No record of the trader, or a first record that it does not name.
    for own in [None, Some(split_record(5, 0)), Some(ReferralState { user: split_trader(), ..split_record(4, 0) })] {
        let shared = distribute_fee(
            &config,
            12_345,
            split_trader(),
            own,
            Some(split_record(1, 10)),
            Some(split_record(2, 20)),
            Some(split_record(3, 30)),
        )
        .unwrap();
        assert_eq!(shared.tier1_referral, Some(split_record(1, 10)));
        assert_eq!(shared.tier2_referral, Some(split_record(2, 20)));
        assert_eq!(shared.tier3_referral, Some(split_record(3, 30)));
        assert_eq!(shared.split.protocol_fee, 12_345);
        assert_eq!(shared.tier1_referrer, Pubkey::default());
    }
    // A chain that comes back to the trader or to a tier below stops there.
    let back = ReferralState { user: split_trader(), ..split_record(2, 20) };
    let shared = distribute_fee(
        &config,
        12_345,
        split_trader(),
        Some(own),
        Some(ReferralState { referrer: split_trader(), ..split_record(1, 10) }),
        Some(back),
        None,
    )
    .unwrap();
    assert_eq!(shared.tier2_referral, Some(back));
    assert_eq!(shared.split.tier2_reward, 0);
    assert_eq!(shared.split.tier1_reward, 3_086);
}

#[test]
fn distribution_to_a_record_that_is_full_is_refused() {
    let config = split_config(2_500, 350, 300);
    assert_eq!(
        distribute_fee(
            &config,
            12_345,
            split_trader(),
            Some(split_own()),
            Some(split_record(1, u64::MAX)),
            None,
            None
        ),
        Err(MaxiFarmError::ArithmeticError)
    );
    assert!(distribute_fee(
        &config,
        12_345,
        split_trader(),
        None,
        Some(split_record(1, u64::MAX)),
        None,
        None
    )
    .is_ok());
}

#[test]
fn record_is_credited_or_left_alone() {
    let mut record = split_record(1, 5);
    assert_eq!(record.credit(7), Ok(()));
    assert_eq!(record, split_record(1, 12));
    let mut full = split_record(1, u64::MAX - 1);
    assert_eq!(full.credit(2), Err(MaxiFarmError::ArithmeticError));
    assert_eq!(full, split_record(1, u64::MAX - 1));
    assert_eq!(full.credit(1), Ok(()));
    assert_eq!(full.earned_rewards, u64::MAX);
}

#[test]
fn configuration_is_valid_when_the_first_tier_covers_the_others() {
    assert!(split_config(2_500, 350, 300).is_valid());
    assert!(split_config(10_000, 5_000, 5_000).is_valid());
    assert!(!split_config(10_001, 0, 0).is_valid());
    assert!(!split_config(500, 350, 300).is_valid());
    assert!(!split_config(300, 350, 0).is_valid());
    let mut fee_too_high = split_config(2_500, 350, 300);
    fee_too_high.trading_fee = 501;
    assert!(!fee_too_high.is_valid());
}
