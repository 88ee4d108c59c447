//! Selling tokens to a pool.

use vstd::prelude::*;
use crate::error::MaxiFarmError;
use crate::ledger::{Instruction, TokenAccount};
use crate::main_state::state::MainState;
use crate::pool::distribution::{distribute_fee, distribution};
use crate::pool::event::TradeEvent;
use crate::pool::gate::{access_result, check_access};
use crate::pool::state::PoolState;
use crate::pubkey::{base58_text, Pubkey};
use crate::referral::state::ReferralState;
use crate::utils::{balance_suffices, calculate_fee, check_balance, fee_amount};

verus! {

/// The records that a sale touches.
#[derive(Clone, Debug, PartialEq, Eq)]
pub struct ASell {
    /// Who sells.
    pub seller: Pubkey,
    /// The configuration.
    pub main_state: MainState,
    /// The pool sold to.
    pub pool_state: PoolState,
    /// The seller's balance of the pool's token.
    pub seller_base_ata: TokenAccount,
    /// The seller's own referral record, if the seller has one.
    pub seller_referral: Option<ReferralState>,
    /// The record handed in as that of the seller's referrer, if any.
    pub tier1_referral: Option<ReferralState>,
    /// The record handed in as that of the referrer's referrer, if any.
    pub tier2_referral: Option<ReferralState>,
    /// The record handed in as that of the referrer one step further up, if any.
    pub tier3_referral: Option<ReferralState>,
    /// The instructions at the head of the running transaction.
    pub ix_sysvar: Vec<Instruction>,
}

/// A sale as it is priced.
#[derive(Clone, Copy, Debug, PartialEq, Eq)]
pub struct SellQuote {
    /// Tokens that reach the pool: what the seller sends, less the tax.
    pub input_base_amount: u64,
    /// Quote units that leave the pool's real reserves.
    pub quote_amount: u64,
    /// The trading fee, part of them.
    pub fee: u64,
    /// Quote units the seller receives.
    pub output_amount: u64,
}

/// What has to be moved once a sale is accepted, and what it reports.
#[derive(Clone, Copy, Debug, PartialEq, Eq)]
pub struct SellSettlement {
    /// Tokens to send from the seller to the pool.
    pub base_amount: u64,
    /// Tokens that have to reach the pool: the rest is the token's transfer tax.
    pub input_base_amount: u64,
    /// Quote units to move from the pool to the seller.
    pub output_amount: u64,
    /// Quote units to move from the pool to the fee recipient.
    pub protocol_fee: u64,
    /// Quote units to move from the pool to where the referral rewards are kept.
    pub referral_fee: u64,
    /// The report of the trade.
    pub trade: TradeEvent,
}

/// The price of a sale of `base_amount` tokens: the tax at the rate
/// `tax_bps` comes off first; what is left brings what the curve gives for
/// it, but no more than the pool's real quote reserves; the trading fee
/// comes off that. It is refused where the seller would receive less than
/// `min_quote_amount`.
pub open spec fn sell_quote(
    pool: PoolState,
    trading_fee: u64,
    base_amount: u64,
    min_quote_amount: u64,
    tax_bps: u64,
) -> Result<SellQuote, MaxiFarmError> {
    let tax = fee_amount(tax_bps, base_amount);
    if tax > base_amount {
        Err(MaxiFarmError::ArithmeticError)
    } else {
        let input_base_amount = (base_amount - tax) as u64;
        match pool.checked_receivable_on_sell(input_base_amount) {
            Err(e) => Err(e),
            Ok(offered) => {
                let quote_amount = if offered > pool.real_quote_reserves {
                    pool.real_quote_reserves
                } else {
                    offered
                };
                let fee = fee_amount(trading_fee, quote_amount);
                if fee > quote_amount {
                    Err(MaxiFarmError::ArithmeticError)
                } else if quote_amount - fee < min_quote_amount {
                    Err(MaxiFarmError::TooLowOuputSol)
                } else {
                    Ok(
                        SellQuote {
                            input_base_amount,
                            quote_amount,
                            fee: fee as u64,
                            output_amount: (quote_amount - fee) as u64,
                        },
                    )
                }
            },
        }
    }
}

/// The pool after a sale: the tokens are added to its real base reserves,
/// the quote units are taken from its real quote reserves.
pub open spec fn sold(pool: PoolState, quote: SellQuote) -> PoolState {
    PoolState {
        real_base_reserves: (pool.real_base_reserves + quote.input_base_amount) as u64,
        real_quote_reserves: (pool.real_quote_reserves - quote.quote_amount) as u64,
        ..pool
    }
}

/// What a priced sale of `base_amount` tokens ends with: the pool's
/// reserves change, the fee is shared with the seller's upline, and the
/// trade is reported with the reserves as they are then. It fails where a
/// sum exceeds 64 bits, where the pool does not hold the quote units, or
/// where the fee cannot be shared.
pub open spec fn sell_settled(ctx: ASell, base_amount: u64, quote: SellQuote, now: i64) -> Result<
    (ASell, SellSettlement),
    MaxiFarmError,
> {
    let pool = sold(ctx.pool_state, quote);
    if ctx.pool_state.real_base_reserves + quote.input_base_amount > u64::MAX || quote.quote_amount
        > ctx.pool_state.real_quote_reserves || !pool.reserves_fit() {
        Err(MaxiFarmError::ArithmeticError)
    } else {
        match distribution(
            ctx.main_state,
            quote.fee,
            ctx.seller,
            ctx.seller_referral,
            ctx.tier1_referral,
            ctx.tier2_referral,
            ctx.tier3_referral,
        ) {
            Err(e) => Err(e),
            Ok(shared) => Ok(
                (
                    ASell {
                        pool_state: pool,
                        tier1_referral: shared.tier1_referral,
                        tier2_referral: shared.tier2_referral,
                        tier3_referral: shared.tier3_referral,
                        ..ctx
                    },
                    SellSettlement {
                        base_amount,
                        input_base_amount: quote.input_base_amount,
                        output_amount: quote.output_amount,
                        protocol_fee: shared.split.protocol_fee,
                        referral_fee: shared.split.spec_referral_fee() as u64,
                        trade: TradeEvent {
                            user: ctx.seller,
                            base_mint: pool.base_mint,
                            sol_amount: quote.output_amount,
                            token_amount: quote.input_base_amount,
                            base_reserves: pool.base_reserves() as u64,
                            quote_reserves: pool.quote_reserves() as u64,
                            is_buy: false,
                            timestamp: now,
                            tier1_referrer: shared.tier1_referrer,
                            tier1_reward: shared.split.tier1_reward,
                            tier2_referrer: shared.tier2_referrer,
                            tier2_reward: shared.split.tier2_reward,
                            tier3_referrer: shared.tier3_referrer,
                            tier3_reward: shared.split.tier3_reward,
                        },
                    },
                ),
            ),
        }
    }
}

/// What a sale of `base_amount` tokens ends with, for a seller of whom
/// `funded` says whether the token account can give them. It is refused,
/// in this order, where the seller cannot give the tokens, where nothing is
/// sold, where the pool is complete, where the private sale gate refuses
/// it, and where its price is refused.
pub open spec fn sell_funded_result(
    ctx: ASell,
    funded: bool,
    base_amount: u64,
    min_quote_amount: u64,
    tax_bps: u64,
    sig: Option<Vec<u8>>,
    now: i64,
) -> Result<(ASell, SellSettlement), MaxiFarmError> {
    if !funded {
        Err(MaxiFarmError::InsufficientFund)
    } else if base_amount == 0 {
        Err(MaxiFarmError::WrongBaseAmount)
    } else if ctx.pool_state.complete {
        Err(MaxiFarmError::BondingCurveComplete)
    } else {
        match access_result(ctx.pool_state, ctx.main_state, ctx.ix_sysvar@, sig, now) {
            Err(e) => Err(e),
            Ok(()) => match sell_quote(
                ctx.pool_state,
                ctx.main_state.trading_fee,
                base_amount,
                min_quote_amount,
                tax_bps,
            ) {
                Err(e) => Err(e),
                Ok(quote) => sell_settled(ctx, base_amount, quote, now),
            },
        }
    }
}

/// What a sale of `base_amount` tokens ends with.
pub open spec fn sell_result(
    ctx: ASell,
    base_amount: u64,
    min_quote_amount: u64,
    tax_bps: u64,
    sig: Option<Vec<u8>>,
    now: i64,
) -> Result<(ASell, SellSettlement), MaxiFarmError> {
    sell_funded_result(
        ctx,
        balance_suffices(
            base58_text(ctx.seller_base_ata.mint@),
            ctx.seller_base_ata.amount,
            base_amount,
        ),
        base_amount,
        min_quote_amount,
        tax_bps,
        sig,
        now,
    )
}

/// Prices a sale of `base_amount` tokens.
pub fn quote_sell(
    pool: &PoolState,
    trading_fee: u64,
    base_amount: u64,
    min_quote_amount: u64,
    tax_bps: u64,
) -> (res: Result<SellQuote, MaxiFarmError>)
    ensures
        res == sell_quote(*pool, trading_fee, base_amount, min_quote_amount, tax_bps),
{
    let tax = match calculate_fee(tax_bps, base_amount) {
        Ok(tax) => tax,
        Err(e) => { return Err(e); },
    };
    if tax > base_amount {
        return Err(MaxiFarmError::ArithmeticError);
    }
    let input_base_amount = base_amount - tax;
    let mut curve = *pool;
    let offered = curve.compute_receivable_amount_on_sell(input_base_amount)?;
    let quote_amount = if offered > pool.real_quote_reserves {
        pool.real_quote_reserves
    } else {
        offered
    };
    let fee = match calculate_fee(trading_fee, quote_amount) {
        Ok(fee) => fee,
        Err(e) => { return Err(e); },
    };
    if fee > quote_amount {
        return Err(MaxiFarmError::ArithmeticError);
    }
    let output_amount = quote_amount - fee;
    if output_amount < min_quote_amount {
        return Err(MaxiFarmError::TooLowOuputSol);
    }
    Ok(SellQuote { input_base_amount, quote_amount, fee, output_amount })
}

/// Carries out a priced sale.
fn settle_sell(ctx: &mut ASell, base_amount: u64, quote: SellQuote, now: i64) -> (res: Result<
    SellSettlement,
    MaxiFarmError,
>)
    ensures
        match sell_settled(*old(ctx), base_amount, quote, now) {
            Ok((next, settlement)) => res == Ok::<SellSettlement, MaxiFarmError>(settlement)
                && *final(ctx) == next,
            Err(e) => res == Err::<SellSettlement, MaxiFarmError>(e) && *final(ctx) == *old(ctx),
        },
{
    let before = ctx.pool_state;
    let real_base_reserves = match before.real_base_reserves.checked_add(quote.input_base_amount) {
        Some(sum) => sum,
        None => { return Err(MaxiFarmError::ArithmeticError); },
    };
    if quote.quote_amount > before.real_quote_reserves {
        return Err(MaxiFarmError::ArithmeticError);
    }
    let real_quote_reserves = before.real_quote_reserves - quote.quote_amount;
    let base_reserves = match real_base_reserves.checked_add(before.virt_base_reserves) {
        Some(sum) => sum,
        None => { return Err(MaxiFarmError::ArithmeticError); },
    };
    let quote_reserves = match before.virt_quote_reserves.checked_add(real_quote_reserves) {
        Some(sum) => sum,
        None => { return Err(MaxiFarmError::ArithmeticError); },
    };
    let shared = distribute_fee(
        &ctx.main_state,
        quote.fee,
        ctx.seller,
        ctx.seller_referral,
        ctx.tier1_referral,
        ctx.tier2_referral,
        ctx.tier3_referral,
    )?;
    let trade = TradeEvent {
        user: ctx.seller,
        base_mint: before.base_mint,
        sol_amount: quote.output_amount,
        token_amount: quote.input_base_amount,
        base_reserves,
        quote_reserves,
        is_buy: false,
        timestamp: now,
        tier1_referrer: shared.tier1_referrer,
        tier1_reward: shared.split.tier1_reward,
        tier2_referrer: shared.tier2_referrer,
        tier2_reward: shared.split.tier2_reward,
        tier3_referrer: shared.tier3_referrer,
        tier3_reward: shared.split.tier3_reward,
    };
    ctx.pool_state.real_base_reserves = real_base_reserves;
    ctx.pool_state.real_quote_reserves = real_quote_reserves;
    ctx.tier1_referral = shared.tier1_referral;
    ctx.tier2_referral = shared.tier2_referral;
    ctx.tier3_referral = shared.tier3_referral;
    Ok(
        SellSettlement {
            base_amount,
            input_base_amount: quote.input_base_amount,
            output_amount: quote.output_amount,
            protocol_fee: shared.split.protocol_fee,
            referral_fee: shared.split.referral_fee(),
            trade,
        },
    )
}

/// Sells `base_amount` tokens for a seller of whom `funded` says whether
/// the token account can give them.
pub fn sell_funded(
    ctx: &mut ASell,
    funded: bool,
    base_amount: u64,
    min_quote_amount: u64,
    tax_bps: u64,
    sig: Option<Vec<u8>>,
    now: i64,
) -> (res: Result<SellSettlement, MaxiFarmError>)
    ensures
        match sell_funded_result(
            *old(ctx),
            funded,
            base_amount,
            min_quote_amount,
            tax_bps,
            sig,
            now,
        ) {
            Ok((next, settlement)) => res == Ok::<SellSettlement, MaxiFarmError>(settlement)
                && *final(ctx) == next,
            Err(e) => res == Err::<SellSettlement, MaxiFarmError>(e) && *final(ctx) == *old(ctx),
        },
        old(ctx).pool_state.wf() ==> final(ctx).pool_state.wf(),
        old(ctx).pool_state.complete ==> final(ctx).pool_state.complete,
{
    if !funded {
        return Err(MaxiFarmError::InsufficientFund);
    }
    if base_amount == 0 {
        return Err(MaxiFarmError::WrongBaseAmount);
    }
    if ctx.pool_state.complete {
        return Err(MaxiFarmError::BondingCurveComplete);
    }
    check_access(&ctx.pool_state, &ctx.main_state, &ctx.ix_sysvar, &sig, now)?;
    let quote = quote_sell(
        &ctx.pool_state,
        ctx.main_state.trading_fee,
        base_amount,
        min_quote_amount,
        tax_bps,
    )?;
    settle_sell(ctx, base_amount, quote, now)
}

/// Sells `base_amount` tokens. The seller receives at least
/// `min_quote_amount` after the token's transfer tax at the rate `tax_bps`
/// and the trading fee, or the sale is refused.
pub fn sell(
    ctx: &mut ASell,
    base_amount: u64,
    min_quote_amount: u64,
    tax_bps: u64,
    sig: Option<Vec<u8>>,
    now: i64,
) -> (res: Result<SellSettlement, MaxiFarmError>)
    ensures
        match sell_result(*old(ctx), base_amount, min_quote_amount, tax_bps, sig, now) {
            Ok((next, settlement)) => res == Ok::<SellSettlement, MaxiFarmError>(settlement)
                && *final(ctx) == next,
            Err(e) => res == Err::<SellSettlement, MaxiFarmError>(e) && *final(ctx) == *old(ctx),
        },
        old(ctx).pool_state.wf() ==> final(ctx).pool_state.wf(),
        old(ctx).pool_state.complete ==> final(ctx).pool_state.complete,
{
    let funded = check_balance(&ctx.seller_base_ata, base_amount);
    sell_funded(ctx, funded, base_amount, min_quote_amount, tax_bps, sig, now)
}

/// What a sale pays out is covered: the seller's proceeds, the protocol's
/// fee and the referrers' rewards are together what leaves the pool's real
/// quote reserves, which is no more than they held; the seller receives at
/// least the stated minimum; and the tokens that reach the pool are added
/// to its real base reserves.
pub proof fn lemma_sale_is_covered(
    ctx: ASell,
    funded: bool,
    base_amount: u64,
    min_quote_amount: u64,
    tax_bps: u64,
    sig: Option<Vec<u8>>,
    now: i64,
)
    requires
        sell_funded_result(ctx, funded, base_amount, min_quote_amount, tax_bps, sig, now) is Ok,
    ensures
        ({
            let (next, settlement) = sell_funded_result(
                ctx,
                funded,
                base_amount,
                min_quote_amount,
                tax_bps,
                sig,
                now,
            )->Ok_0;
            &&& settlement.output_amount + settlement.protocol_fee + settlement.referral_fee
                + next.pool_state.real_quote_reserves == ctx.pool_state.real_quote_reserves
            &&& settlement.output_amount >= min_quote_amount
            &&& settlement.input_base_amount <= base_amount
            &&& next.pool_state.real_base_reserves == ctx.pool_state.real_base_reserves
                + settlement.input_base_amount
        }),
{
}

} // verus!
