//! Emptying a completed pool.

use vstd::prelude::*;
use crate::error::{ErrorKind, MaxiFarmError};
use crate::main_state::state::MainState;
use crate::pool::event::WithdrawEvent;
use crate::pool::state::PoolState;
use crate::pubkey::Pubkey;

verus! {

/// The records that a withdrawal touches.
#[derive(Clone, Copy, Debug, PartialEq, Eq)]
pub struct AWithdraw {
    /// Who withdraws.
    pub withdrawer: Pubkey,
    /// The configuration.
    pub main_state: MainState,
    /// The pool withdrawn from.
    pub pool_state: PoolState,
}

/// The pool after a withdrawal: it holds nothing.
pub open spec fn withdrawn(pool: PoolState) -> PoolState {
    PoolState { real_base_reserves: 0, real_quote_reserves: 0, ..pool }
}

/// What a withdrawal ends with: the configured withdrawer receives all the
/// pool holds. It is refused, in this order, where another one asks for
/// it, where the pool is not complete, and where the pool holds no tokens
/// or no quote units, as it does after a withdrawal.
pub open spec fn withdraw_result(ctx: AWithdraw, now: i64) -> Result<
    (AWithdraw, WithdrawEvent),
    MaxiFarmError,
> {
    let pool = ctx.pool_state;
    if ctx.withdrawer != ctx.main_state.withdrawer {
        Err(MaxiFarmError::Unauthorised)
    } else if !pool.complete {
        Err(MaxiFarmError::BondingCurveIncomplete)
    } else if pool.real_base_reserves == 0 || pool.real_quote_reserves == 0 {
        Err(MaxiFarmError::BondingCurveAlreadyWithdrawn)
    } else {
        Ok(
            (
                AWithdraw { pool_state: withdrawn(pool), ..ctx },
                WithdrawEvent {
                    withdrawer: ctx.withdrawer,
                    base_mint: pool.base_mint,
                    base_amount: pool.real_base_reserves,
                    quote_amount: pool.real_quote_reserves,
                    timestamp: now,
                },
            ),
        )
    }
}

/// Hands all that a completed pool holds to the withdrawer, and says how
/// much that is.
pub fn withdraw(ctx: &mut AWithdraw, now: i64) -> (res: Result<WithdrawEvent, MaxiFarmError>)
    ensures
        match withdraw_result(*old(ctx), now) {
            Ok((next, event)) => res == Ok::<WithdrawEvent, MaxiFarmError>(event) && *final(ctx)
                == next,
            Err(e) => res == Err::<WithdrawEvent, MaxiFarmError>(e) && *final(ctx) == *old(ctx),
        },
        old(ctx).pool_state.wf() ==> final(ctx).pool_state.wf(),
        old(ctx).pool_state.complete ==> final(ctx).pool_state.complete,
{
    if ctx.withdrawer != ctx.main_state.withdrawer {
        return Err(MaxiFarmError::Unauthorised);
    }
    if !ctx.pool_state.complete {
        return Err(MaxiFarmError::BondingCurveIncomplete);
    }
    if ctx.pool_state.real_base_reserves == 0 || ctx.pool_state.real_quote_reserves == 0 {
        return Err(MaxiFarmError::BondingCurveAlreadyWithdrawn);
    }
    let event = WithdrawEvent {
        withdrawer: ctx.withdrawer,
        base_mint: ctx.pool_state.base_mint,
        base_amount: ctx.pool_state.real_base_reserves,
        quote_amount: ctx.pool_state.real_quote_reserves,
        timestamp: now,
    };
    ctx.pool_state.real_base_reserves = 0;
    ctx.pool_state.real_quote_reserves = 0;
    Ok(event)
}

/// A withdrawal takes effect once: after one that succeeded the pool holds
/// nothing, and another one is refused as already done, which is an error
/// of the pool's state, whenever it comes and whoever the configuration
/// then names as withdrawer.
pub proof fn lemma_withdraw_once(ctx: AWithdraw, now: i64, again: AWithdraw, later: i64)
    requires
        withdraw_result(ctx, now) is Ok,
        again.pool_state == withdraw_result(ctx, now)->Ok_0.0.pool_state,
        again.withdrawer == again.main_state.withdrawer,
    ensures
        withdraw_result(ctx, now)->Ok_0.0.pool_state.real_base_reserves == 0,
        withdraw_result(ctx, now)->Ok_0.0.pool_state.real_quote_reserves == 0,
        withdraw_result(again, later) == Err::<(AWithdraw, WithdrawEvent), MaxiFarmError>(
            MaxiFarmError::BondingCurveAlreadyWithdrawn,
        ),
        withdraw_result(withdraw_result(ctx, now)->Ok_0.0, later) == Err::<
            (AWithdraw, WithdrawEvent),
            MaxiFarmError,
        >(MaxiFarmError::BondingCurveAlreadyWithdrawn),
        MaxiFarmError::BondingCurveAlreadyWithdrawn.spec_kind() == ErrorKind::State,
{
}

} // verus!
