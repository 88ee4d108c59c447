use maxi_farm::pool::ixs::buy::quote_exact_sol;
use maxi_farm::pool::ixs::sell::quote_sell;
use maxi_farm::{
    buy_exact_tokens_from_sol, buy_tokens_from_exact_sol, sell, ABuy, ASell, MainState, PoolState,
    Pubkey, TokenAccount,
};

fn trading_key(tag: u8) -> Pubkey {
    Pubkey::new_from_array([tag; 32])
}

fn trading_config(trading_fee: u64) -> MainState {
    MainState {
        owner: trading_key(9),
        signer: trading_key(7),
        withdrawer: trading_key(9),
        trading_fee,
        fee_recipient: trading_key(9),
        tier1_reward: 2_500,
        tier2_reward: 350,
        tier3_reward: 300,
    }
}

fn trading_pool(supply: u64, threshold: u64) -> PoolState {
    PoolState {
        owner: trading_key(1),
        tax: 0,
        max_fee_tokens: 0,
        base_mint: trading_key(2),
        virt_base_reserves: supply / 15,
        real_base_reserves: supply,
        virt_quote_reserves: threshold / 3,
        real_quote_reserves: 0,
        real_quote_threshold: threshold,
        created_time: 0,
        priv_sale_period: 0,
        complete: false,
    }
}

fn trading_buy_ctx(pool: PoolState, trading_fee: u64) -> ABuy {
    ABuy {
        buyer: trading_key(3),
        main_state: trading_config(trading_fee),
        pool_state: pool,
        buyer_referral: None,
        tier1_referral: None,
        tier2_referral: None,
        tier3_referral: None,
        ix_sysvar: vec![],
    }
}

fn trading_sell_ctx(pool: PoolState, trading_fee: u64, held: u64) -> ASell {
    ASell {
        seller: trading_key(3),
        main_state: trading_config(trading_fee),
        pool_state: pool,
        seller_base_ata: TokenAccount { mint: trading_key(2), amount: held },
        seller_referral: None,
        tier1_referral: None,
        tier2_referral: None,
        tier3_referral: None,
        ix_sysvar: vec![],
    }
}

fn trading_next(seed: &mut u64) -> u64 {
    *seed = seed.wrapping_mul(6_364_136_223_846_793_005).wrapping_add(1_442_695_040_888_963_407);
    *seed >> 11
}

#[test]
fn buying_and_selling_back_never_pays() {
    let mut seed = 42;
    let fees: [u64; 4] = [0, 1, 50, 500];
    let taxes: [u64; 4] = [0, 1, 500, 5_000];
    for round in 0..400 {
        let supply = 1 + trading_next(&mut seed) % 1_000_000_000_000;
        let threshold = 3 + trading_next(&mut seed) % 1_000_000_000_000;
        let paid = 1 + trading_next(&mut seed) % (2 * threshold);
        let trading_fee = fees[round % 4];
        let buy_tax = taxes[(round / 4) % 4];
        let sell_tax = taxes[(round / 16) % 4];
        let mut buy = trading_buy_ctx(trading_pool(supply, threshold), trading_fee);
        let bought = match buy_tokens_from_exact_sol(&mut buy, paid, 0, buy_tax, None, 1) {
            Ok(bought) => bought,
            Err(_) => continue,
        };
        assert!(bought.trade.sol_amount <= paid);
        if buy.pool_state.complete {
            continue;
        }
        let kept = bought.base_amount - bought.tax;
        if kept == 0 {
            continue;
        }
        let mut back = trading_sell_ctx(buy.pool_state, trading_fee, kept);
        let proceeds = sell(&mut back, kept, 0, sell_tax, None, 2).unwrap();
        assert!(proceeds.output_amount <= paid);
        if trading_fee > 0 || buy_tax > 0 || sell_tax > 0 {
            assert!(proceeds.output_amount < paid);
        }
    }
}

#[test]
fn round_trip_without_fees_can_return_the_whole_payment() {
    let pool = PoolState {
        virt_base_reserves: 0,
        real_base_reserves: 1_000,
        virt_quote_reserves: 1_000,
        ..trading_pool(1_000, 1_000_000)
    };
    let mut buy = trading_buy_ctx(pool, 0);
    let bought = buy_tokens_from_exact_sol(&mut buy, 1_000, 0, 0, None, 1).unwrap();
    assert_eq!(bought.base_amount, 500);
    let mut back = trading_sell_ctx(buy.pool_state, 0, 500);
    let proceeds = sell(&mut back, 500, 0, 0, None, 2).unwrap();
    assert_eq!(proceeds.output_amount, 1_000);
    assert_eq!(back.pool_state, pool);
}

#[test]
fn purchases_never_carry_a_pool_past_its_threshold() {
    let mut seed = 7;
    for round in 0..400 {
        let supply = 1 + trading_next(&mut seed) % 1_000_000_000_000;
        let threshold = 1 + trading_next(&mut seed) % 1_000_000_000_000;
        let trading_fee = [0, 50, 500][round % 3];
        let mut ctx = trading_buy_ctx(trading_pool(supply, threshold), trading_fee);
        for _ in 0..6 {
            let before = ctx.pool_state.real_quote_reserves;
            let result = if trading_next(&mut seed) % 2 == 0 {
                let paid = 1 + trading_next(&mut seed) % threshold;
                let offered =
                    paid - maxi_farm::calculate_fee(trading_fee, paid).unwrap();
                let result = buy_tokens_from_exact_sol(&mut ctx, paid, 0, 0, None, 1);
                if result.is_ok() && before + offered > threshold {
                    assert_eq!(ctx.pool_state.real_quote_reserves, threshold);
                }
                result
            } else {
                let wanted = 1 + trading_next(&mut seed) % supply;
                buy_exact_tokens_from_sol(&mut ctx, wanted, u64::MAX, 0, None, 1)
            };
            assert!(ctx.pool_state.real_quote_reserves <= threshold);
            assert!(ctx.pool_state.is_valid());
            match result {
                Ok(settlement) => {
                    assert_eq!(
                        ctx.pool_state.real_quote_reserves,
                        before + settlement.input_quote_amount
                    );
                    assert_eq!(
                        settlement.complete.is_some(),
                        ctx.pool_state.real_quote_reserves == threshold
                    );
                    assert_eq!(ctx.pool_state.complete, settlement.complete.is_some());
                }
                Err(_) => assert_eq!(ctx.pool_state.real_quote_reserves, before),
            }
            if ctx.pool_state.complete {
                break;
            }
        }
    }
}

#[test]
fn purchase_of_a_number_of_tokens_leaves_the_buyer_with_that_number() {
    let taxes: [u64; 5] = [0, 1, 250, 500, 5_000];
    let mut seed = 99;
    for round in 0..200 {
        let wanted = 1 + trading_next(&mut seed) % 400_000;
        let mut ctx = trading_buy_ctx(trading_pool(1_000_000, 82_000_000_000_000), 50);
        let settlement =
            buy_exact_tokens_from_sol(&mut ctx, wanted, u64::MAX, taxes[round % 5], None, 1)
                .unwrap();
        assert_eq!(settlement.complete, None);
        assert_eq!(settlement.base_amount - settlement.tax, wanted);
        assert_eq!(
            settlement.trade.sol_amount,
            settlement.input_quote_amount + settlement.protocol_fee + settlement.referral_fee
        );
    }
}

#[test]
fn quotes_change_nothing_and_agree_with_the_trades() {
    let pool = trading_pool(1_000_000, 82_000_000_000);
    let quote = quote_exact_sol(&pool, 50, 1_000_000_000, 0, 500).unwrap();
    assert_eq!(quote.base_amount, 37_465);
    assert_eq!(quote.tax, 1_874);
    assert_eq!(quote.fee, 5_000_000);
    assert_eq!(quote.input_quote_amount, 995_000_000);
    let mut ctx = trading_buy_ctx(pool, 50);
    let settlement = buy_tokens_from_exact_sol(&mut ctx, 1_000_000_000, 0, 500, None, 1).unwrap();
    assert_eq!(settlement.base_amount, quote.base_amount);
    assert_eq!(settlement.tax, quote.tax);
    let sale = quote_sell(&ctx.pool_state, 50, 37_465, 0, 500).unwrap();
    assert_eq!(sale.input_base_amount, 35_591);
    assert_eq!(sale.quote_amount, 946_883_251);
    assert_eq!(sale.fee, 4_734_417);
    assert_eq!(sale.output_amount, 942_148_834);
}
