use maxi_farm::{
    buy_tokens_from_exact_sol, claim_rewards, init_main_state, register_user,
    transfer_ownership, update_main_state, ABuy, AClaimRewards, AInitMainState, ARegisterUser,
    ATransferOwnership, AUpdateMainState, MainState, PoolState, MainStateInitialized, MainStateUpdated, MaxiFarmError, OwnershipTransferred,
    Pubkey, ReferralState, RewardsClaimEvent, UpdateMainStateInput, UserRegisteredEvent,
};

fn conf_key(tag: u8) -> Pubkey {
    Pubkey::new_from_array([tag; 32])
}

fn conf_blank() -> MainState {
    MainState {
        owner: Pubkey::default(),
        signer: Pubkey::default(),
        withdrawer: Pubkey::default(),
        trading_fee: 0,
        fee_recipient: Pubkey::default(),
        tier1_reward: 0,
        tier2_reward: 0,
        tier3_reward: 0,
    }
}

fn conf_initial() -> MainState {
    let mut ctx = AInitMainState { owner: conf_key(9), main_state: conf_blank() };
    init_main_state(&mut ctx, conf_key(7));
    ctx.main_state
}

#[test]
fn configuration_starts_with_its_owner_and_the_default_rates() {
    let mut ctx = AInitMainState { owner: conf_key(9), main_state: conf_blank() };
    let event = init_main_state(&mut ctx, conf_key(7));
    assert_eq!(
        event,
        MainStateInitialized {
            owner: conf_key(9),
            signer: conf_key(7),
            withdrawer: conf_key(9),
            trading_fee: 50,
            fee_recipient: conf_key(9),
        }
    );
    assert_eq!(
        ctx.main_state,
        MainState {
            owner: conf_key(9),
            signer: conf_key(7),
            withdrawer: conf_key(9),
            trading_fee: 50,
            fee_recipient: conf_key(9),
            tier1_reward: 2_500,
            tier2_reward: 350,
            tier3_reward: 300,
        }
    );
    assert!(ctx.main_state.is_valid());
    assert_eq!(ctx.owner, conf_key(9));
}

#[test]
fn ownership_goes_to_another_owner() {
    let mut ctx = ATransferOwnership { owner: conf_key(9), main_state: conf_initial() };
    assert_eq!(
        transfer_ownership(&mut ctx, conf_key(10)),
        Ok(OwnershipTransferred { previous_owner: conf_key(9), new_owner: conf_key(10) })
    );
    assert_eq!(ctx.main_state, MainState { owner: conf_key(10), ..conf_initial() });
    assert_eq!(transfer_ownership(&mut ctx, conf_key(9)), Err(MaxiFarmError::Unauthorised));
    assert_eq!(ctx.main_state.owner, conf_key(10));
}

#[test]
fn ownership_does_not_go_to_the_owner() {
    let mut ctx = ATransferOwnership { owner: conf_key(9), main_state: conf_initial() };
    assert_eq!(transfer_ownership(&mut ctx, conf_key(9)), Err(MaxiFarmError::AlreadyBecameOwner));
    assert_eq!(ctx.main_state, conf_initial());
}

#[test]
fn ownership_is_transferred_by_the_owner_only() {
    let mut ctx = ATransferOwnership { owner: conf_key(8), main_state: conf_initial() };
    assert_eq!(transfer_ownership(&mut ctx, conf_key(8)), Err(MaxiFarmError::Unauthorised));
    assert_eq!(transfer_ownership(&mut ctx, conf_key(9)), Err(MaxiFarmError::Unauthorised));
    assert_eq!(ctx.main_state, conf_initial());
}

#[test]
fn configuration_is_changed_by_the_owner_within_the_fee_limit() {
    let input = UpdateMainStateInput {
        signer: conf_key(1),
        withdrawer: conf_key(2),
        trading_fee: 500,
        fee_recipient: conf_key(3),
    };
    let mut ctx = AUpdateMainState { owner: conf_key(9), main_state: conf_initial() };
    assert_eq!(
        update_main_state(&mut ctx, input),
        Ok(MainStateUpdated {
            signer: conf_key(1),
            withdrawer: conf_key(2),
            trading_fee: 500,
            fee_recipient: conf_key(3),
        })
    );
    assert_eq!(
        ctx.main_state,
        MainState {
            owner: conf_key(9),
            signer: conf_key(1),
            withdrawer: conf_key(2),
            trading_fee: 500,
            fee_recipient: conf_key(3),
            tier1_reward: 2_500,
            tier2_reward: 350,
            tier3_reward: 300,
        }
    );
    assert!(ctx.main_state.is_valid());
}

#[test]
fn configuration_with_a_fee_above_the_limit_is_refused() {
    let input = UpdateMainStateInput {
        signer: conf_key(1),
        withdrawer: conf_key(2),
        trading_fee: 501,
        fee_recipient: conf_key(3),
    };
    let mut ctx = AUpdateMainState { owner: conf_key(9), main_state: conf_initial() };
    assert_eq!(update_main_state(&mut ctx, input), Err(MaxiFarmError::InvalidTradingFee));
    assert_eq!(ctx.main_state, conf_initial());
    let mut other = AUpdateMainState { owner: conf_key(8), main_state: conf_initial() };
    assert_eq!(update_main_state(&mut other, input), Err(MaxiFarmError::Unauthorised));
    assert_eq!(other.main_state, conf_initial());
}

#[test]
fn registration_under_a_referrer_anchors_the_referrer() {
    let mut ctx = ARegisterUser {
        user: conf_key(20),
        referral_account: ReferralState::empty(),
        referrer_account: Some(ReferralState::empty()),
    };
    let event = register_user(&mut ctx, Some(conf_key(10)), 5_000);
    assert_eq!(
        event,
        UserRegisteredEvent { referree: conf_key(20), referrer: conf_key(10), timestamp: 5_000 }
    );
    assert_eq!(
        ctx.referral_account,
        ReferralState { user: conf_key(20), earned_rewards: 0, referrer: conf_key(10) }
    );
    let anchor = ctx.referrer_account.unwrap();
    assert_eq!(anchor.user, conf_key(10));
    assert!(!anchor.has_referrer());
    assert_eq!(anchor.earned_rewards, 0);
}

#[test]
fn registration_keeps_the_record_of_a_referrer_that_has_one() {
    let known = ReferralState { user: conf_key(10), earned_rewards: 77, referrer: conf_key(5) };
    let mut ctx = ARegisterUser {
        user: conf_key(20),
        referral_account: ReferralState::empty(),
        referrer_account: Some(known),
    };
    register_user(&mut ctx, Some(conf_key(10)), 5_000);
    assert_eq!(ctx.referrer_account, Some(known));
    assert_eq!(ctx.referral_account.referrer, conf_key(10));
}

#[test]
fn registration_without_a_referrer_creates_the_record() {
    let mut ctx = ARegisterUser {
        user: conf_key(20),
        referral_account: ReferralState::empty(),
        referrer_account: None,
    };
    let event = register_user(&mut ctx, None, 5_000);
    assert_eq!(
        event,
        UserRegisteredEvent { referree: conf_key(20), referrer: Pubkey::default(), timestamp: 5_000 }
    );
    assert_eq!(
        ctx.referral_account,
        ReferralState { user: conf_key(20), earned_rewards: 0, referrer: Pubkey::default() }
    );
    assert_eq!(ctx.referrer_account, None);
    let event = register_user(&mut ctx, Some(conf_key(10)), 5_001);
    assert_eq!(event.referrer, conf_key(10));
    assert_eq!(ctx.referral_account.referrer, conf_key(10));
}

#[test]
fn registration_again_keeps_the_first_referrer() {
    let mut ctx = ARegisterUser {
        user: conf_key(20),
        referral_account: ReferralState {
            user: conf_key(20),
            earned_rewards: 9,
            referrer: conf_key(10),
        },
        referrer_account: Some(ReferralState::empty()),
    };
    let before = ctx;
    let event = register_user(&mut ctx, Some(conf_key(11)), 6_000);
    assert_eq!(
        event,
        UserRegisteredEvent { referree: conf_key(20), referrer: conf_key(10), timestamp: 6_000 }
    );
    assert_eq!(ctx, before);
    register_user(&mut ctx, None, 6_001);
    assert_eq!(ctx, before);
}

#[test]
fn rewards_are_claimed_whole_and_once() {
    let record = ReferralState { user: conf_key(10), earned_rewards: 1_250_000, referrer: conf_key(5) };
    let mut ctx = AClaimRewards {
        user: conf_key(10),
        referral_account: record,
        custody_lamports: 2_000_000,
        user_lamports: 7,
    };
    assert_eq!(
        claim_rewards(&mut ctx, 7_000),
        Ok(RewardsClaimEvent { user: conf_key(10), rewards: 1_250_000, timestamp: 7_000 })
    );
    assert_eq!(ctx.referral_account, ReferralState { earned_rewards: 0, ..record });
    assert_eq!(ctx.custody_lamports, 750_000);
    assert_eq!(ctx.user_lamports, 1_250_007);
    assert_eq!(claim_rewards(&mut ctx, 7_001), Err(MaxiFarmError::NoRewardsAvailable));
    assert_eq!(ctx.referral_account, ReferralState { earned_rewards: 0, ..record });
    assert_eq!(ctx.custody_lamports, 750_000);
    assert_eq!(ctx.user_lamports, 1_250_007);
}

#[test]
fn rewards_of_another_user_cannot_be_claimed() {
    let record = ReferralState { user: conf_key(10), earned_rewards: 1_250_000, referrer: conf_key(5) };
    let fresh = AClaimRewards {
        user: conf_key(11),
        referral_account: record,
        custody_lamports: 2_000_000,
        user_lamports: 7,
    };
    let mut ctx = fresh;
    assert_eq!(claim_rewards(&mut ctx, 7_000), Err(MaxiFarmError::Unauthorised));
    assert_eq!(ctx, fresh);
    ctx.referral_account.earned_rewards = 0;
    assert_eq!(claim_rewards(&mut ctx, 7_000), Err(MaxiFarmError::Unauthorised));
    ctx.referral_account = ReferralState::empty();
    assert_eq!(claim_rewards(&mut ctx, 7_000), Err(MaxiFarmError::Unauthorised));
}

#[test]
fn rewards_that_the_custody_cannot_pay_stay_earned() {
    let record = ReferralState { user: conf_key(10), earned_rewards: 1_250_000, referrer: conf_key(5) };
    let fresh = AClaimRewards {
        user: conf_key(10),
        referral_account: record,
        custody_lamports: 1_249_999,
        user_lamports: 7,
    };
    let mut ctx = fresh;
    assert_eq!(claim_rewards(&mut ctx, 7_000), Err(MaxiFarmError::InsufficientFund));
    assert_eq!(ctx, fresh);
    ctx.custody_lamports = 1_250_000;
    assert!(claim_rewards(&mut ctx, 7_000).is_ok());
    assert_eq!(ctx.custody_lamports, 0);
}

#[test]
fn rewards_that_the_user_cannot_hold_stay_earned() {
    let record = ReferralState { user: conf_key(10), earned_rewards: 10, referrer: conf_key(5) };
    let fresh = AClaimRewards {
        user: conf_key(10),
        referral_account: record,
        custody_lamports: 100,
        user_lamports: u64::MAX - 9,
    };
    let mut ctx = fresh;
    assert_eq!(claim_rewards(&mut ctx, 7_000), Err(MaxiFarmError::ArithmeticError));
    assert_eq!(ctx, fresh);
    ctx.user_lamports = u64::MAX - 10;
    assert!(claim_rewards(&mut ctx, 7_000).is_ok());
    assert_eq!(ctx.user_lamports, u64::MAX);
}

#[test]
fn trade_of_a_user_with_a_fresh_referrer_credits_the_first_tier_only() {
    let mut registration = ARegisterUser {
        user: conf_key(20),
        referral_account: ReferralState::empty(),
        referrer_account: Some(ReferralState::empty()),
    };
    register_user(&mut registration, Some(conf_key(10)), 5_000);
    let referrer = registration.referrer_account.unwrap();
    assert_eq!(referrer.user, conf_key(10));
    assert!(!referrer.has_referrer());

    let pool = PoolState {
        owner: conf_key(1),
        tax: 0,
        max_fee_tokens: 0,
        base_mint: conf_key(2),
        virt_base_reserves: 66_666,
        real_base_reserves: 1_000_000,
        virt_quote_reserves: 27_333_333_333,
        real_quote_reserves: 0,
        real_quote_threshold: 82_000_000_000,
        created_time: 1_000,
        priv_sale_period: 0,
        complete: false,
    };
    let mut ctx = ABuy {
        buyer: conf_key(20),
        main_state: conf_initial(),
        pool_state: pool,
        buyer_referral: Some(registration.referral_account),
        tier1_referral: Some(referrer),
        tier2_referral: None,
        tier3_referral: None,
        ix_sysvar: vec![],
    };
    let settlement =
        buy_tokens_from_exact_sol(&mut ctx, 1_000_000_000, 0, 0, None, 5_001).unwrap();
    assert_eq!(settlement.trade.tier1_referrer, conf_key(10));
    assert_eq!(settlement.trade.tier1_reward, 1_250_000);
    assert_eq!(settlement.trade.tier2_referrer, Pubkey::default());
    assert_eq!(settlement.trade.tier2_reward, 0);
    assert_eq!(settlement.trade.tier3_referrer, Pubkey::default());
    assert_eq!(settlement.trade.tier3_reward, 0);
    assert_eq!(settlement.referral_fee, 1_250_000);
    assert_eq!(settlement.protocol_fee, 3_750_000);
    assert_eq!(ctx.tier1_referral.unwrap().earned_rewards, 1_250_000);
    assert_eq!(ctx.tier2_referral, None);
    assert_eq!(ctx.tier3_referral, None);
}
