//! Creating a pool.

use vstd::prelude::*;
use crate::constants::{
    DEF_PRIV_SALE_PERIOD,
    MAX_FEE_BPS,
    MAX_PRIV_SALE_PERIOD,
    MAX_TAX,
    NATIVE_MINT_2022_STR,
    REWARD_SCALE,
};
use crate::error::MaxiFarmError;
use crate::ledger::{Mint, TokenAccount};
use crate::pool::event::CreateEvent;
use crate::pool::state::PoolState;
use crate::pubkey::{base58_text, Pubkey};

verus! {

/// The records that the creation of a pool touches.
#[derive(Clone, Copy, Debug, PartialEq, Eq)]
pub struct ACreatePool {
    /// Who creates the pool.
    pub creator: Pubkey,
    /// The pool to fill in.
    pub pool_state: PoolState,
    /// The token offered.
    pub base_mint: Mint,
    /// The pool's balance of the token.
    pub reserver_base_ata: TokenAccount,
}

/// The most that `max_fee_tokens` may be for a supply: one percent of it,
/// rounded down.
pub open spec fn max_fee_tokens_limit(supply: u64) -> int {
    supply * MAX_FEE_BPS / (REWARD_SCALE as int)
}

/// The pool as it is created: it holds the whole supply, a fifteenth of
/// the supply more as virtual base reserves, no quote units, and a third of
/// its threshold as virtual quote reserves.
pub open spec fn created_pool(
    creator: Pubkey,
    base_mint: Pubkey,
    supply: u64,
    tax_bps: u64,
    max_fee_tokens: u64,
    real_quote_threshold: u64,
    priv_sale_period: u64,
    now: i64,
) -> PoolState {
    PoolState {
        owner: creator,
        tax: tax_bps,
        max_fee_tokens,
        base_mint,
        virt_base_reserves: supply / 15,
        real_base_reserves: supply,
        virt_quote_reserves: real_quote_threshold / 3,
        real_quote_reserves: 0,
        real_quote_threshold,
        created_time: now as u64,
        priv_sale_period,
        complete: false,
    }
}

/// The private sale period of a pool that is created with the given choice.
pub open spec fn chosen_period(opt_priv_sale_period: Option<u64>) -> u64 {
    match opt_priv_sale_period {
        Some(period) => period,
        None => DEF_PRIV_SALE_PERIOD,
    }
}

/// What the creation of a pool for the token whose address reads
/// `mint_text` ends with. It is refused, in this order, where the token is
/// the wrapped native mint, where the tax or the threshold is out of range,
/// where the pool does not hold the whole supply, where `max_fee_tokens`
/// exceeds one percent of the supply, where the token can still be minted
/// or frozen, where the private sale period is longer than a day, and where
/// the supply with its fifteenth exceeds 64 bits.
pub open spec fn create_pool_for_result(
    ctx: ACreatePool,
    mint_text: Seq<char>,
    metadata_uri: String,
    tax_bps: u64,
    max_fee_tokens: u64,
    real_quote_threshold: u64,
    coin_type: u8,
    opt_priv_sale_period: Option<u64>,
    now: i64,
) -> Result<(ACreatePool, CreateEvent), MaxiFarmError> {
    let supply = ctx.reserver_base_ata.amount;
    if mint_text == NATIVE_MINT_2022_STR@ {
        Err(MaxiFarmError::InvalidTokenPair)
    } else if tax_bps > MAX_TAX {
        Err(MaxiFarmError::InvalidTax)
    } else if real_quote_threshold == 0 {
        Err(MaxiFarmError::InvalidRealQuoteThreshold)
    } else if supply != ctx.base_mint.supply {
        Err(MaxiFarmError::WrongBaseAmountOnCreation)
    } else if max_fee_tokens > max_fee_tokens_limit(supply) {
        Err(MaxiFarmError::InvalidMaxFeeTokens)
    } else if ctx.base_mint.mint_authority is Some {
        Err(MaxiFarmError::BaseTokenMustNotBeMintable)
    } else if ctx.base_mint.freeze_authority is Some {
        Err(MaxiFarmError::BaseTokenMustNotBeFreezable)
    } else if chosen_period(opt_priv_sale_period) > MAX_PRIV_SALE_PERIOD {
        Err(MaxiFarmError::InvalidPrivSalePeriod)
    } else if supply + supply / 15 > u64::MAX {
        Err(MaxiFarmError::ArithmeticError)
    } else {
        let pool = created_pool(
            ctx.creator,
            ctx.base_mint.address,
            supply,
            tax_bps,
            max_fee_tokens,
            real_quote_threshold,
            chosen_period(opt_priv_sale_period),
            now,
        );
        Ok(
            (
                ACreatePool { pool_state: pool, ..ctx },
                CreateEvent {
                    creator: ctx.creator,
                    base_mint: ctx.base_mint.address,
                    metadata_uri,
                    tax: tax_bps,
                    max_fee_tokens,
                    total_supply: supply,
                    real_quote_threshold,
                    base_reserves: (supply + supply / 15) as u64,
                    quote_reserves: real_quote_threshold / 3,
                    priv_sale_period: chosen_period(opt_priv_sale_period),
                    timestamp: now,
                    coin_type,
                },
            ),
        )
    }
}

/// What the creation of a pool ends with.
pub open spec fn create_pool_result(
    ctx: ACreatePool,
    metadata_uri: String,
    tax_bps: u64,
    max_fee_tokens: u64,
    real_quote_threshold: u64,
    coin_type: u8,
    opt_priv_sale_period: Option<u64>,
    now: i64,
) -> Result<(ACreatePool, CreateEvent), MaxiFarmError> {
    create_pool_for_result(
        ctx,
        base58_text(ctx.base_mint.address@),
        metadata_uri,
        tax_bps,
        max_fee_tokens,
        real_quote_threshold,
        coin_type,
        opt_priv_sale_period,
        now,
    )
}

/// Creates a pool for the token whose address reads `mint_text`.
pub fn create_pool_for(
    ctx: &mut ACreatePool,
    mint_text: &str,
    metadata_uri: String,
    tax_bps: u64,
    max_fee_tokens: u64,
    real_quote_threshold: u64,
    coin_type: u8,
    opt_priv_sale_period: Option<u64>,
    now: i64,
) -> (res: Result<CreateEvent, MaxiFarmError>)
    ensures
        match create_pool_for_result(
            *old(ctx),
            mint_text@,
            metadata_uri,
            tax_bps,
            max_fee_tokens,
            real_quote_threshold,
            coin_type,
            opt_priv_sale_period,
            now,
        ) {
            Ok((next, event)) => res == Ok::<CreateEvent, MaxiFarmError>(event) && *final(ctx)
                == next,
            Err(e) => res == Err::<CreateEvent, MaxiFarmError>(e) && *final(ctx) == *old(ctx),
        },
        res is Ok ==> final(ctx).pool_state.wf(),
{
    if mint_text.to_owned() == NATIVE_MINT_2022_STR.to_owned() {
        return Err(MaxiFarmError::InvalidTokenPair);
    }
    if tax_bps > MAX_TAX {
        return Err(MaxiFarmError::InvalidTax);
    }
    if real_quote_threshold == 0 {
        return Err(MaxiFarmError::InvalidRealQuoteThreshold);
    }
    let base_amount: u64 = ctx.reserver_base_ata.amount;
    if base_amount != ctx.base_mint.supply {
        return Err(MaxiFarmError::WrongBaseAmountOnCreation);
    }
    let limit: u128 = (base_amount as u128) * (MAX_FEE_BPS as u128) / (REWARD_SCALE as u128);
    if max_fee_tokens as u128 > limit {
        return Err(MaxiFarmError::InvalidMaxFeeTokens);
    }
    if ctx.base_mint.mint_authority.is_some() {
        return Err(MaxiFarmError::BaseTokenMustNotBeMintable);
    }
    if ctx.base_mint.freeze_authority.is_some() {
        return Err(MaxiFarmError::BaseTokenMustNotBeFreezable);
    }
    let priv_sale_period = match opt_priv_sale_period {
        Some(period) => period,
        None => DEF_PRIV_SALE_PERIOD,
    };
    if priv_sale_period > MAX_PRIV_SALE_PERIOD {
        return Err(MaxiFarmError::InvalidPrivSalePeriod);
    }
    let virt_base_reserves = base_amount / 15;
    let base_reserves = match base_amount.checked_add(virt_base_reserves) {
        Some(sum) => sum,
        None => { return Err(MaxiFarmError::ArithmeticError); },
    };
    let creator = ctx.creator;
    let base_mint = ctx.base_mint.address;
    ctx.pool_state = PoolState {
        owner: creator,
        tax: tax_bps,
        max_fee_tokens,
        base_mint,
        virt_base_reserves,
        real_base_reserves: base_amount,
        virt_quote_reserves: real_quote_threshold / 3,
        real_quote_reserves: 0,
        real_quote_threshold,
        created_time: now as u64,
        priv_sale_period,
        complete: false,
    };
    Ok(
        CreateEvent {
            creator,
            base_mint,
            metadata_uri,
            tax: tax_bps,
            max_fee_tokens,
            total_supply: base_amount,
            real_quote_threshold,
            base_reserves,
            quote_reserves: real_quote_threshold / 3,
            priv_sale_period,
            timestamp: now,
            coin_type,
        },
    )
}

/// Creates a pool that offers the whole supply of a token which can be
/// neither minted nor frozen any more.
pub fn create_pool(
    ctx: &mut ACreatePool,
    metadata_uri: String,
    tax_bps: u64,
    max_fee_tokens: u64,
    real_quote_threshold: u64,
    coin_type: u8,
    opt_priv_sale_period: Option<u64>,
    now: i64,
) -> (res: Result<CreateEvent, MaxiFarmError>)
    ensures
        match create_pool_result(
            *old(ctx),
            metadata_uri,
            tax_bps,
            max_fee_tokens,
            real_quote_threshold,
            coin_type,
            opt_priv_sale_period,
            now,
        ) {
            Ok((next, event)) => res == Ok::<CreateEvent, MaxiFarmError>(event) && *final(ctx)
                == next,
            Err(e) => res == Err::<CreateEvent, MaxiFarmError>(e) && *final(ctx) == *old(ctx),
        },
        res is Ok ==> final(ctx).pool_state.wf(),
{
    let mint_text = ctx.base_mint.address.to_base58();
    create_pool_for(
        ctx,
        mint_text.as_str(),
        metadata_uri,
        tax_bps,
        max_fee_tokens,
        real_quote_threshold,
        coin_type,
        opt_priv_sale_period,
        now,
    )
}

} // verus!
