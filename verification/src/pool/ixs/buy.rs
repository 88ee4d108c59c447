//! Buying tokens from a pool.

use vstd::prelude::*;
use crate::constants::FEE_SCALE;
use crate::error::MaxiFarmError;
use crate::ledger::Instruction;
use crate::main_state::state::MainState;
use crate::pool::distribution::{distribute_fee, distribution};
use crate::pool::event::{CompleteEvent, TradeEvent};
use crate::pool::gate::{access_result, check_access};
use crate::pool::state::{lemma_output_at_most_reserve, PoolState};
use crate::pubkey::Pubkey;
use crate::referral::state::ReferralState;
use crate::utils::{
    calculate_fee,
    calculate_total_amount,
    fee_amount,
    lemma_fee_bounds,
    lemma_fee_is_ceiling,
    lemma_total_amount_nets_exactly,
    total_amount,
};

verus! {

/// The records that a purchase touches.
#[derive(Clone, Debug, PartialEq, Eq)]
pub struct ABuy {
    /// Who buys.
    pub buyer: Pubkey,
    /// The configuration.
    pub main_state: MainState,
    /// The pool bought from.
    pub pool_state: PoolState,
    /// The buyer's own referral record, if the buyer has one.
    pub buyer_referral: Option<ReferralState>,
    /// The record handed in as that of the buyer's referrer, if any.
    pub tier1_referral: Option<ReferralState>,
    /// The record handed in as that of the referrer's referrer, if any.
    pub tier2_referral: Option<ReferralState>,
    /// The record handed in as that of the referrer one step further up, if any.
    pub tier3_referral: Option<ReferralState>,
    /// The instructions at the head of the running transaction.
    pub ix_sysvar: Vec<Instruction>,
}

/// What has to be moved once a purchase is accepted, and what it reports.
#[derive(Clone, Copy, Debug, PartialEq, Eq)]
pub struct BuySettlement {
    /// Tokens to send from the pool to the buyer.
    pub base_amount: u64,
    /// What the token's transfer tax withholds of them on the way.
    pub tax: u64,
    /// Quote units to move from the buyer to the pool.
    pub input_quote_amount: u64,
    /// Quote units to move from the buyer to the fee recipient.
    pub protocol_fee: u64,
    /// Quote units to move from the buyer to where the referral rewards are kept.
    pub referral_fee: u64,
    /// The report of the trade.
    pub trade: TradeEvent,
    /// The report of the completion, where the purchase completes the pool.
    pub complete: Option<CompleteEvent>,
}

/// What finishing a purchase ends with, for a pool whose reserves already
/// reflect it: the fee is shared with the buyer's upline, the pool completes
/// once its real quote reserves have reached the threshold, and the trade is
/// reported with the reserves as they are. It fails where the fee cannot be
/// shared, where the tax exceeds the tokens bought, or where a sum exceeds
/// 64 bits.
pub open spec fn buy_finalize_result(
    ctx: ABuy,
    base_amount: u64,
    tax: u64,
    fee: u64,
    input_quote_amount: u64,
    now: i64,
) -> Result<(ABuy, BuySettlement), MaxiFarmError> {
    let pool = ctx.pool_state;
    match distribution(
        ctx.main_state,
        fee,
        ctx.buyer,
        ctx.buyer_referral,
        ctx.tier1_referral,
        ctx.tier2_referral,
        ctx.tier3_referral,
    ) {
        Err(e) => Err(e),
        Ok(shared) => if tax > base_amount || fee + input_quote_amount > u64::MAX
            || !pool.reserves_fit() {
            Err(MaxiFarmError::ArithmeticError)
        } else {
            let completes = pool.real_quote_reserves >= pool.real_quote_threshold;
            Ok(
                (
                    ABuy {
                        pool_state: PoolState { complete: pool.complete || completes, ..pool },
                        tier1_referral: shared.tier1_referral,
                        tier2_referral: shared.tier2_referral,
                        tier3_referral: shared.tier3_referral,
                        ..ctx
                    },
                    BuySettlement {
                        base_amount,
                        tax,
                        input_quote_amount,
                        protocol_fee: shared.split.protocol_fee,
                        referral_fee: shared.split.spec_referral_fee() as u64,
                        trade: TradeEvent {
                            user: ctx.buyer,
                            base_mint: pool.base_mint,
                            sol_amount: (fee + input_quote_amount) as u64,
                            token_amount: base_amount,
                            base_reserves: pool.base_reserves() as u64,
                            quote_reserves: pool.quote_reserves() as u64,
                            is_buy: true,
                            timestamp: now,
                            tier1_referrer: shared.tier1_referrer,
                            tier1_reward: shared.split.tier1_reward,
                            tier2_referrer: shared.tier2_referrer,
                            tier2_reward: shared.split.tier2_reward,
                            tier3_referrer: shared.tier3_referrer,
                            tier3_reward: shared.split.tier3_reward,
                        },
                        complete: if completes {
                            Some(CompleteEvent { base_mint: pool.base_mint, timestamp: now })
                        } else {
                            None
                        },
                    },
                ),
            )
        },
    }
}

/// Finishes a purchase whose tokens, tax, fee and net payment are settled
/// and already reflected in the pool's reserves: shares the fee, credits
/// the tiers, completes the pool where the threshold is reached, and says
/// what has to be moved.
pub fn buy_finalize(
    ctx: &mut ABuy,
    base_amount: u64,
    tax: u64,
    fee: u64,
    input_quote_amount: u64,
    now: i64,
) -> (res: Result<BuySettlement, MaxiFarmError>)
    ensures
        match buy_finalize_result(*old(ctx), base_amount, tax, fee, input_quote_amount, now) {
            Ok((next, settlement)) => res == Ok::<BuySettlement, MaxiFarmError>(settlement)
                && *final(ctx) == next,
            Err(e) => res == Err::<BuySettlement, MaxiFarmError>(e) && *final(ctx) == *old(ctx),
        },
        old(ctx).pool_state.wf() ==> final(ctx).pool_state.wf(),
        old(ctx).pool_state.complete ==> final(ctx).pool_state.complete,
{
    let shared = distribute_fee(
        &ctx.main_state,
        fee,
        ctx.buyer,
        ctx.buyer_referral,
        ctx.tier1_referral,
        ctx.tier2_referral,
        ctx.tier3_referral,
    )?;
    if tax > base_amount {
        return Err(MaxiFarmError::ArithmeticError);
    }
    let pool = ctx.pool_state;
    let sol_amount = match fee.checked_add(input_quote_amount) {
        Some(sum) => sum,
        None => { return Err(MaxiFarmError::ArithmeticError); },
    };
    let base_reserves = match pool.real_base_reserves.checked_add(pool.virt_base_reserves) {
        Some(sum) => sum,
        None => { return Err(MaxiFarmError::ArithmeticError); },
    };
    let quote_reserves = match pool.virt_quote_reserves.checked_add(pool.real_quote_reserves) {
        Some(sum) => sum,
        None => { return Err(MaxiFarmError::ArithmeticError); },
    };
    let trade = TradeEvent {
        user: ctx.buyer,
        base_mint: pool.base_mint,
        sol_amount,
        token_amount: base_amount,
        base_reserves,
        quote_reserves,
        is_buy: true,
        timestamp: now,
        tier1_referrer: shared.tier1_referrer,
        tier1_reward: shared.split.tier1_reward,
        tier2_referrer: shared.tier2_referrer,
        tier2_reward: shared.split.tier2_reward,
        tier3_referrer: shared.tier3_referrer,
        tier3_reward: shared.split.tier3_reward,
    };
    let complete = if pool.real_quote_reserves >= pool.real_quote_threshold {
        ctx.pool_state.complete = true;
        Some(CompleteEvent { base_mint: pool.base_mint, timestamp: now })
    } else {
        None
    };
    ctx.tier1_referral = shared.tier1_referral;
    ctx.tier2_referral = shared.tier2_referral;
    ctx.tier3_referral = shared.tier3_referral;
    Ok(
        BuySettlement {
            base_amount,
            tax,
            input_quote_amount,
            protocol_fee: shared.split.protocol_fee,
            referral_fee: shared.split.referral_fee(),
            trade,
            complete,
        },
    )
}

/// A purchase as it is priced.
#[derive(Clone, Copy, Debug, PartialEq, Eq)]
pub struct BuyQuote {
    /// Tokens that leave the pool.
    pub base_amount: u64,
    /// What the token's transfer tax withholds of them.
    pub tax: u64,
    /// The trading fee.
    pub fee: u64,
    /// Quote units that reach the pool.
    pub input_quote_amount: u64,
}

/// The trading fee and the net payment of a buyer who offers
/// `quote_amount`, fee included. The net payment is what is left of the
/// offer after the fee, but never more than what the pool still lacks to
/// its threshold: where the offer would carry the pool past it, the net
/// payment is exactly what the pool lacks, and the fee is what the least
/// gross amount with that net payment costs beyond it.
pub open spec fn exact_sol_payment(pool: PoolState, trading_fee: u64, quote_amount: u64) -> Result<
    (u64, u64),
    MaxiFarmError,
> {
    let fee = fee_amount(trading_fee, quote_amount);
    let lacking = pool.real_quote_threshold - pool.real_quote_reserves;
    if fee > quote_amount {
        Err(MaxiFarmError::ArithmeticError)
    } else if quote_amount - fee <= lacking {
        Ok((fee as u64, (quote_amount - fee) as u64))
    } else if lacking < 0 || trading_fee >= FEE_SCALE || total_amount(trading_fee, lacking as u64)
        > u64::MAX {
        Err(MaxiFarmError::ArithmeticError)
    } else {
        Ok(((total_amount(trading_fee, lacking as u64) - lacking) as u64, lacking as u64))
    }
}

/// The price of a purchase for `quote_amount`, fee included: the tokens
/// that the net payment buys on the curve, and the tax on them at the rate
/// `tax_bps`. It is refused where the tokens left after the tax are fewer
/// than `min_base_amount`.
pub open spec fn exact_sol_quote(
    pool: PoolState,
    trading_fee: u64,
    quote_amount: u64,
    min_base_amount: u64,
    tax_bps: u64,
) -> Result<BuyQuote, MaxiFarmError> {
    match exact_sol_payment(pool, trading_fee, quote_amount) {
        Err(e) => Err(e),
        Ok((fee, input_quote_amount)) => {
            let base_amount = pool.receivable_on_buy(input_quote_amount);
            let tax = fee_amount(tax_bps, base_amount as u64);
            if !pool.reserves_fit() || pool.quote_reserves() + input_quote_amount == 0 {
                Err(MaxiFarmError::ArithmeticError)
            } else if tax > base_amount {
                Err(MaxiFarmError::ArithmeticError)
            } else if base_amount - tax < min_base_amount {
                Err(MaxiFarmError::TooFewOutputTokens)
            } else {
                Ok(
                    BuyQuote {
                        base_amount: base_amount as u64,
                        tax: tax as u64,
                        fee,
                        input_quote_amount,
                    },
                )
            }
        },
    }
}

/// The price of a purchase of `base_amount` tokens after tax. The tokens
/// that leave the pool are the least amount of which `base_amount` is left
/// after the tax; they have to be more than none and no more than the pool
/// holds. Where their cost would carry the pool past its threshold, the
/// payment is what the pool lacks, and the tokens are what that buys, which
/// has to be more than none as well. The buyer's total cost, fee included, is the least gross amount of which the
/// payment is left after the fee, and may not exceed `max_quote_amount`.
pub open spec fn exact_tokens_quote(
    pool: PoolState,
    trading_fee: u64,
    base_amount: u64,
    max_quote_amount: u64,
    tax_bps: u64,
) -> Result<BuyQuote, MaxiFarmError> {
    let total_base_amount = total_amount(tax_bps, base_amount);
    let cost = pool.required_on_buy(total_base_amount as u64);
    let lacking = pool.real_quote_threshold - pool.real_quote_reserves;
    let stops = cost > lacking;
    let input_quote_amount = if stops {
        lacking
    } else {
        cost
    };
    let input_base_amount = if stops {
        pool.receivable_on_buy(lacking as u64)
    } else {
        total_base_amount
    };
    let total_quote_amount = total_amount(trading_fee, input_quote_amount as u64);
    if tax_bps >= FEE_SCALE || total_base_amount > u64::MAX {
        Err(MaxiFarmError::ArithmeticError)
    } else if total_base_amount == 0 || total_base_amount > pool.real_base_reserves {
        Err(MaxiFarmError::WrongBaseAmount)
    } else if !pool.required_on_buy_defined(total_base_amount as u64) {
        Err(MaxiFarmError::ArithmeticError)
    } else if stops && (lacking < 0 || pool.quote_reserves() + lacking == 0) {
        Err(MaxiFarmError::ArithmeticError)
    } else if input_base_amount == 0 {
        Err(MaxiFarmError::WrongBaseAmount)
    } else if trading_fee >= FEE_SCALE || total_quote_amount > u64::MAX {
        Err(MaxiFarmError::ArithmeticError)
    } else if total_quote_amount > max_quote_amount {
        Err(MaxiFarmError::TooMuchInputSol)
    } else {
        Ok(
            BuyQuote {
                base_amount: input_base_amount as u64,
                tax: fee_amount(tax_bps, input_base_amount as u64) as u64,
                fee: (total_quote_amount - input_quote_amount) as u64,
                input_quote_amount: input_quote_amount as u64,
            },
        )
    }
}

/// The pool after a purchase: the net payment is added to its real quote
/// reserves, the tokens are taken from its real base reserves.
pub open spec fn bought(pool: PoolState, quote: BuyQuote) -> PoolState {
    PoolState {
        real_quote_reserves: (pool.real_quote_reserves + quote.input_quote_amount) as u64,
        real_base_reserves: (pool.real_base_reserves - quote.base_amount) as u64,
        ..pool
    }
}

/// What a priced purchase ends with: the pool cannot give more tokens than
/// it holds; its reserves change, and the purchase is finished on them.
pub open spec fn buy_settled(ctx: ABuy, quote: BuyQuote, now: i64) -> Result<
    (ABuy, BuySettlement),
    MaxiFarmError,
> {
    if quote.base_amount > ctx.pool_state.real_base_reserves || ctx.pool_state.real_quote_reserves
        + quote.input_quote_amount > u64::MAX {
        Err(MaxiFarmError::ArithmeticError)
    } else {
        buy_finalize_result(
            ABuy { pool_state: bought(ctx.pool_state, quote), ..ctx },
            quote.base_amount,
            quote.tax,
            quote.fee,
            quote.input_quote_amount,
            now,
        )
    }
}

/// What a purchase for `quote_amount`, fee included, ends with. It is
/// refused, in this order, where nothing is offered, where the pool is
/// complete, where the private sale gate refuses it, and where its price
/// is refused.
pub open spec fn buy_tokens_from_exact_sol_result(
    ctx: ABuy,
    quote_amount: u64,
    min_base_amount: u64,
    tax_bps: u64,
    sig: Option<Vec<u8>>,
    now: i64,
) -> Result<(ABuy, BuySettlement), MaxiFarmError> {
    if quote_amount == 0 {
        Err(MaxiFarmError::WrongQuoteAmount)
    } else if ctx.pool_state.complete {
        Err(MaxiFarmError::BondingCurveComplete)
    } else {
        match access_result(ctx.pool_state, ctx.main_state, ctx.ix_sysvar@, sig, now) {
            Err(e) => Err(e),
            Ok(()) => match exact_sol_quote(
                ctx.pool_state,
                ctx.main_state.trading_fee,
                quote_amount,
                min_base_amount,
                tax_bps,
            ) {
                Err(e) => Err(e),
                Ok(quote) => buy_settled(ctx, quote, now),
            },
        }
    }
}

/// What a purchase of `base_amount` tokens after tax ends with. It is
/// refused, in this order, where the pool is complete, where the private
/// sale gate refuses it, and where its price is refused.
pub open spec fn buy_exact_tokens_from_sol_result(
    ctx: ABuy,
    base_amount: u64,
    max_quote_amount: u64,
    tax_bps: u64,
    sig: Option<Vec<u8>>,
    now: i64,
) -> Result<(ABuy, BuySettlement), MaxiFarmError> {
    if ctx.pool_state.complete {
        Err(MaxiFarmError::BondingCurveComplete)
    } else {
        match access_result(ctx.pool_state, ctx.main_state, ctx.ix_sysvar@, sig, now) {
            Err(e) => Err(e),
            Ok(()) => match exact_tokens_quote(
                ctx.pool_state,
                ctx.main_state.trading_fee,
                base_amount,
                max_quote_amount,
                tax_bps,
            ) {
                Err(e) => Err(e),
                Ok(quote) => buy_settled(ctx, quote, now),
            },
        }
    }
}

/// Trading fee and net payment for an offer of `quote_amount`.
fn pay_exact_sol(pool: &PoolState, trading_fee: u64, quote_amount: u64) -> (res: Result<
    (u64, u64),
    MaxiFarmError,
>)
    ensures
        res == exact_sol_payment(*pool, trading_fee, quote_amount),
        res matches Ok((fee, net)) ==> pool.real_quote_reserves + net <= pool.real_quote_threshold,
{
    let fee = match calculate_fee(trading_fee, quote_amount) {
        Ok(fee) => fee,
        Err(e) => { return Err(e); },
    };
    if fee > quote_amount {
        return Err(MaxiFarmError::ArithmeticError);
    }
    let offered = quote_amount - fee;
    if pool.real_quote_reserves as u128 + offered as u128 <= pool.real_quote_threshold as u128 {
        return Ok((fee, offered));
    }
    if pool.real_quote_reserves > pool.real_quote_threshold {
        return Err(MaxiFarmError::ArithmeticError);
    }
    let lacking = pool.real_quote_threshold - pool.real_quote_reserves;
    let gross = calculate_total_amount(trading_fee, lacking)?;
    proof {
        lemma_total_amount_nets_exactly(trading_fee, lacking);
        lemma_fee_bounds(trading_fee, gross);
    }
    let fee = calculate_fee(trading_fee, gross)?;
    Ok((fee, gross - fee))
}

/// Prices a purchase for `quote_amount`, fee included.
pub fn quote_exact_sol(
    pool: &PoolState,
    trading_fee: u64,
    quote_amount: u64,
    min_base_amount: u64,
    tax_bps: u64,
) -> (res: Result<BuyQuote, MaxiFarmError>)
    ensures
        res == exact_sol_quote(*pool, trading_fee, quote_amount, min_base_amount, tax_bps),
        res matches Ok(quote) ==> pool.real_quote_reserves + quote.input_quote_amount
            <= pool.real_quote_threshold,
{
    let (fee, input_quote_amount) = pay_exact_sol(pool, trading_fee, quote_amount)?;
    let mut curve = *pool;
    let base_amount = curve.compute_receivable_amount_on_buy(input_quote_amount)?;
    let tax = match calculate_fee(tax_bps, base_amount) {
        Ok(tax) => tax,
        Err(e) => { return Err(e); },
    };
    if tax > base_amount {
        return Err(MaxiFarmError::ArithmeticError);
    }
    if base_amount - tax < min_base_amount {
        return Err(MaxiFarmError::TooFewOutputTokens);
    }
    Ok(BuyQuote { base_amount, tax, fee, input_quote_amount })
}

/// Prices a purchase of `base_amount` tokens after tax.
pub fn quote_exact_tokens(
    pool: &PoolState,
    trading_fee: u64,
    base_amount: u64,
    max_quote_amount: u64,
    tax_bps: u64,
) -> (res: Result<BuyQuote, MaxiFarmError>)
    ensures
        res == exact_tokens_quote(*pool, trading_fee, base_amount, max_quote_amount, tax_bps),
        res matches Ok(quote) ==> pool.real_quote_reserves + quote.input_quote_amount
            <= pool.real_quote_threshold,
{
    let total_base_amount = calculate_total_amount(tax_bps, base_amount)?;
    if total_base_amount == 0 || total_base_amount > pool.real_base_reserves {
        return Err(MaxiFarmError::WrongBaseAmount);
    }
    let mut curve = *pool;
    let cost = curve.compute_required_amount_on_buy(total_base_amount)?;
    let mut input_base_amount = total_base_amount;
    let mut input_quote_amount = cost;
    if pool.real_quote_reserves as u128 + cost as u128 > pool.real_quote_threshold as u128 {
        if pool.real_quote_reserves > pool.real_quote_threshold {
            return Err(MaxiFarmError::ArithmeticError);
        }
        input_quote_amount = pool.real_quote_threshold - pool.real_quote_reserves;
        input_base_amount = curve.compute_receivable_amount_on_buy(input_quote_amount)?;
        if input_base_amount == 0 {
            return Err(MaxiFarmError::WrongBaseAmount);
        }
    }
    let total_quote_amount = calculate_total_amount(trading_fee, input_quote_amount)?;
    if total_quote_amount > max_quote_amount {
        return Err(MaxiFarmError::TooMuchInputSol);
    }
    proof {
        lemma_total_amount_nets_exactly(trading_fee, input_quote_amount);
        lemma_fee_bounds(trading_fee, total_quote_amount);
        lemma_fee_bounds(tax_bps, input_base_amount);
    }
    let fee = calculate_fee(trading_fee, total_quote_amount)?;
    let tax = calculate_fee(tax_bps, input_base_amount)?;
    Ok(BuyQuote { base_amount: input_base_amount, tax, fee, input_quote_amount })
}

/// Carries out a priced purchase: changes the pool's reserves and finishes
/// the purchase on them.
fn settle_buy(ctx: &mut ABuy, quote: BuyQuote, now: i64) -> (res: Result<
    BuySettlement,
    MaxiFarmError,
>)
    ensures
        match buy_settled(*old(ctx), quote, now) {
            Ok((next, settlement)) => res == Ok::<BuySettlement, MaxiFarmError>(settlement)
                && *final(ctx) == next,
            Err(e) => res == Err::<BuySettlement, MaxiFarmError>(e) && *final(ctx) == *old(ctx),
        },
{
    let before = ctx.pool_state;
    if quote.base_amount > before.real_base_reserves {
        return Err(MaxiFarmError::ArithmeticError);
    }
    let real_quote_reserves = match before.real_quote_reserves.checked_add(
        quote.input_quote_amount,
    ) {
        Some(sum) => sum,
        None => { return Err(MaxiFarmError::ArithmeticError); },
    };
    ctx.pool_state.real_quote_reserves = real_quote_reserves;
    ctx.pool_state.real_base_reserves = before.real_base_reserves - quote.base_amount;
    match buy_finalize(ctx, quote.base_amount, quote.tax, quote.fee, quote.input_quote_amount, now) {
        Ok(settlement) => Ok(settlement),
        Err(e) => {
            ctx.pool_state = before;
            Err(e)
        },
    }
}

/// Buys tokens for `quote_amount`, fee included. The buyer is left with at
/// least `min_base_amount` tokens after the token's transfer tax at the
/// rate `tax_bps`, or the purchase is refused.
pub fn buy_tokens_from_exact_sol(
    ctx: &mut ABuy,
    quote_amount: u64,
    min_base_amount: u64,
    tax_bps: u64,
    sig: Option<Vec<u8>>,
    now: i64,
) -> (res: Result<BuySettlement, MaxiFarmError>)
    ensures
        match buy_tokens_from_exact_sol_result(
            *old(ctx),
            quote_amount,
            min_base_amount,
            tax_bps,
            sig,
            now,
        ) {
            Ok((next, settlement)) => res == Ok::<BuySettlement, MaxiFarmError>(settlement)
                && *final(ctx) == next,
            Err(e) => res == Err::<BuySettlement, MaxiFarmError>(e) && *final(ctx) == *old(ctx),
        },
        old(ctx).pool_state.wf() ==> final(ctx).pool_state.wf(),
        old(ctx).pool_state.complete ==> final(ctx).pool_state.complete,
{
    if quote_amount == 0 {
        return Err(MaxiFarmError::WrongQuoteAmount);
    }
    if ctx.pool_state.complete {
        return Err(MaxiFarmError::BondingCurveComplete);
    }
    check_access(&ctx.pool_state, &ctx.main_state, &ctx.ix_sysvar, &sig, now)?;
    let quote = quote_exact_sol(
        &ctx.pool_state,
        ctx.main_state.trading_fee,
        quote_amount,
        min_base_amount,
        tax_bps,
    )?;
    settle_buy(ctx, quote, now)
}

/// Buys `base_amount` tokens after the token's transfer tax at the rate
/// `tax_bps`, for at most `max_quote_amount`, fee included.
pub fn buy_exact_tokens_from_sol(
    ctx: &mut ABuy,
    base_amount: u64,
    max_quote_amount: u64,
    tax_bps: u64,
    sig: Option<Vec<u8>>,
    now: i64,
) -> (res: Result<BuySettlement, MaxiFarmError>)
    ensures
        match buy_exact_tokens_from_sol_result(
            *old(ctx),
            base_amount,
            max_quote_amount,
            tax_bps,
            sig,
            now,
        ) {
            Ok((next, settlement)) => res == Ok::<BuySettlement, MaxiFarmError>(settlement)
                && *final(ctx) == next,
            Err(e) => res == Err::<BuySettlement, MaxiFarmError>(e) && *final(ctx) == *old(ctx),
        },
        old(ctx).pool_state.wf() ==> final(ctx).pool_state.wf(),
        old(ctx).pool_state.complete ==> final(ctx).pool_state.complete,
{
    if ctx.pool_state.complete {
        return Err(MaxiFarmError::BondingCurveComplete);
    }
    check_access(&ctx.pool_state, &ctx.main_state, &ctx.ix_sysvar, &sig, now)?;
    let quote = quote_exact_tokens(
        &ctx.pool_state,
        ctx.main_state.trading_fee,
        base_amount,
        max_quote_amount,
        tax_bps,
    )?;
    settle_buy(ctx, quote, now)
}

/// A purchase never carries a pool past its threshold. Whatever is
/// offered, after a purchase for a given payment the pool's real quote
/// reserves are at most its threshold; where what is left of the offer
/// after the fee would have carried them past it, they are exactly the
/// threshold; and once they have reached it the pool is complete and the
/// completion is reported.
pub proof fn lemma_exact_sol_stops_at_threshold(
    ctx: ABuy,
    quote_amount: u64,
    min_base_amount: u64,
    tax_bps: u64,
    sig: Option<Vec<u8>>,
    now: i64,
)
    requires
        buy_tokens_from_exact_sol_result(ctx, quote_amount, min_base_amount, tax_bps, sig, now)
            is Ok,
    ensures
        ({
            let (next, settlement) = buy_tokens_from_exact_sol_result(
                ctx,
                quote_amount,
                min_base_amount,
                tax_bps,
                sig,
                now,
            )->Ok_0;
            let pool = next.pool_state;
            &&& pool.real_quote_reserves <= pool.real_quote_threshold
            &&& pool.real_quote_threshold == ctx.pool_state.real_quote_threshold
            &&& pool.real_quote_reserves == ctx.pool_state.real_quote_reserves
                + settlement.input_quote_amount
            &&& ctx.pool_state.real_quote_reserves + (quote_amount - fee_amount(
                ctx.main_state.trading_fee,
                quote_amount,
            )) > pool.real_quote_threshold ==> pool.real_quote_reserves
                == pool.real_quote_threshold
            &&& pool.real_quote_reserves == pool.real_quote_threshold ==> pool.complete
                && settlement.complete is Some
        }),
{
}

/// A purchase of a given number of tokens never carries a pool past its
/// threshold either: where the cost of the tokens would have carried the
/// real quote reserves past it, they are exactly the threshold after the
/// purchase, and the pool is complete.
pub proof fn lemma_exact_tokens_stops_at_threshold(
    ctx: ABuy,
    base_amount: u64,
    max_quote_amount: u64,
    tax_bps: u64,
    sig: Option<Vec<u8>>,
    now: i64,
)
    requires
        buy_exact_tokens_from_sol_result(ctx, base_amount, max_quote_amount, tax_bps, sig, now)
            is Ok,
    ensures
        ({
            let (next, settlement) = buy_exact_tokens_from_sol_result(
                ctx,
                base_amount,
                max_quote_amount,
                tax_bps,
                sig,
                now,
            )->Ok_0;
            let pool = next.pool_state;
            &&& pool.real_quote_reserves <= pool.real_quote_threshold
            &&& pool.real_quote_threshold == ctx.pool_state.real_quote_threshold
            &&& pool.real_quote_reserves == ctx.pool_state.real_quote_reserves
                + settlement.input_quote_amount
            &&& ctx.pool_state.real_quote_reserves + ctx.pool_state.required_on_buy(
                total_amount(tax_bps, base_amount) as u64,
            ) > pool.real_quote_threshold ==> pool.real_quote_reserves
                == pool.real_quote_threshold
            &&& pool.real_quote_reserves == pool.real_quote_threshold ==> pool.complete
                && settlement.complete is Some
        }),
{
}

/// What a buyer pays is accounted for: the fee goes to the protocol and to
/// the referrers, whole, and the rest of what the trade reports as paid
/// reaches the pool. A buyer who offers a payment never pays more than the
/// offer, and pays exactly the offer unless the purchase stops at the
/// threshold.
pub proof fn lemma_exact_sol_payment_accounted(
    ctx: ABuy,
    quote_amount: u64,
    min_base_amount: u64,
    tax_bps: u64,
    sig: Option<Vec<u8>>,
    now: i64,
)
    requires
        buy_tokens_from_exact_sol_result(ctx, quote_amount, min_base_amount, tax_bps, sig, now)
            is Ok,
    ensures
        ({
            let (next, settlement) = buy_tokens_from_exact_sol_result(
                ctx,
                quote_amount,
                min_base_amount,
                tax_bps,
                sig,
                now,
            )->Ok_0;
            &&& settlement.trade.sol_amount == settlement.input_quote_amount
                + settlement.protocol_fee + settlement.referral_fee
            &&& settlement.trade.sol_amount <= quote_amount
            &&& next.pool_state.real_quote_reserves < next.pool_state.real_quote_threshold
                ==> settlement.trade.sol_amount == quote_amount
            &&& next.pool_state.real_base_reserves + settlement.base_amount
                == ctx.pool_state.real_base_reserves
            &&& settlement.base_amount - settlement.tax >= min_base_amount
        }),
{
    let pool = ctx.pool_state;
    let trading_fee = ctx.main_state.trading_fee;
    let lacking = pool.real_quote_threshold - pool.real_quote_reserves;
    let paid = exact_sol_payment(pool, trading_fee, quote_amount)->Ok_0.1;
    lemma_output_at_most_reserve(paid as int, pool.quote_reserves(), pool.base_reserves());
    lemma_fee_is_ceiling(trading_fee, quote_amount);
    if quote_amount - fee_amount(trading_fee, quote_amount) > lacking {
        // The least gross amount that leaves `lacking` is at most the offer,
        // which leaves more.
        let gross = total_amount(trading_fee, lacking as u64);
        lemma_total_amount_nets_exactly(trading_fee, lacking as u64);
        if gross > quote_amount {
            lemma_net_monotonic(trading_fee, quote_amount, gross as u64);
        }
    }
}

/// What is left of an amount after the fee grows with the amount.
pub proof fn lemma_net_monotonic(fee: u64, smaller: u64, larger: u64)
    requires
        fee <= FEE_SCALE,
        smaller <= larger,
    ensures
        smaller - fee_amount(fee, smaller) <= larger - fee_amount(fee, larger),
{
    let f = fee as int;
    let d = FEE_SCALE as int;
    let a = smaller as int;
    let b = larger as int;
    let fa = fee_amount(fee, smaller);
    let fb = fee_amount(fee, larger);
    lemma_fee_is_ceiling(fee, smaller);
    lemma_fee_is_ceiling(fee, larger);
    // fb is the least whole number with fb * d >= b * f, and fa + (b - a)
    // is one such number.
    assert((fa + (b - a)) * d >= b * f) by (nonlinear_arith)
        requires
            fa * d >= a * f,
            0 <= f <= d,
            a <= b,
    ;
    assert(fb <= fa + (b - a)) by (nonlinear_arith)
        requires
            (fb - 1) * d < b * f,
            (fa + (b - a)) * d >= b * f,
            0 < d,
    ;
}

/// A buyer who asks for a number of tokens pays at most the stated
/// maximum, is sent more than none, and, unless the purchase stops at the
/// threshold, is left with exactly the tokens asked for once the token's
/// transfer tax is withheld.
pub proof fn lemma_exact_tokens_delivers(
    ctx: ABuy,
    base_amount: u64,
    max_quote_amount: u64,
    tax_bps: u64,
    sig: Option<Vec<u8>>,
    now: i64,
)
    requires
        buy_exact_tokens_from_sol_result(ctx, base_amount, max_quote_amount, tax_bps, sig, now)
            is Ok,
    ensures
        ({
            let (next, settlement) = buy_exact_tokens_from_sol_result(
                ctx,
                base_amount,
                max_quote_amount,
                tax_bps,
                sig,
                now,
            )->Ok_0;
            &&& settlement.trade.sol_amount == settlement.input_quote_amount
                + settlement.protocol_fee + settlement.referral_fee
            &&& settlement.trade.sol_amount <= max_quote_amount
            &&& 0 < settlement.base_amount
            &&& settlement.tax <= settlement.base_amount
            &&& next.pool_state.real_quote_reserves < next.pool_state.real_quote_threshold
                ==> settlement.base_amount - settlement.tax == base_amount
            &&& next.pool_state.real_base_reserves + settlement.base_amount
                == ctx.pool_state.real_base_reserves
        }),
{
    let (next, settlement) = buy_exact_tokens_from_sol_result(
        ctx,
        base_amount,
        max_quote_amount,
        tax_bps,
        sig,
        now,
    )->Ok_0;
    let quote = exact_tokens_quote(
        ctx.pool_state,
        ctx.main_state.trading_fee,
        base_amount,
        max_quote_amount,
        tax_bps,
    )->Ok_0;
    lemma_total_amount_nets_exactly(tax_bps, base_amount);
    lemma_total_amount_nets_exactly(ctx.main_state.trading_fee, quote.input_quote_amount);
    lemma_fee_bounds(tax_bps, quote.base_amount);
    if ctx.pool_state.quote_reserves() + quote.input_quote_amount > 0 {
        lemma_output_at_most_reserve(
            quote.input_quote_amount as int,
            ctx.pool_state.quote_reserves(),
            ctx.pool_state.base_reserves(),
        );
    }
}

} // verus!
