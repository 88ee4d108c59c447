//! Completing a pool before it has reached its threshold.

use vstd::prelude::*;
use crate::constants::NORMAL_REAL_QUOTE_THRESHOLD;
use crate::error::MaxiFarmError;
use crate::pool::event::CompleteEvent;
use crate::pool::state::PoolState;
use crate::pubkey::Pubkey;

verus! {

/// The records that a forced completion touches.
#[derive(Clone, Copy, Debug, PartialEq, Eq)]
pub struct AForceComplete {
    /// Who asks for the completion.
    pub owner: Pubkey,
    /// The pool.
    pub pool_state: PoolState,
}

/// What a pool has to have collected before its owner may complete it:
/// four fifths of its threshold where that is at most the reference
/// threshold, and the reference threshold where it is higher.
pub open spec fn forced_completion_floor(real_quote_threshold: u64) -> int {
    if real_quote_threshold <= NORMAL_REAL_QUOTE_THRESHOLD {
        real_quote_threshold * 4 / 5
    } else {
        NORMAL_REAL_QUOTE_THRESHOLD as int
    }
}

/// What a forced completion ends with. It is refused, in this order, where
/// another one than the pool's owner asks for it, where the pool is
/// complete, and where the pool has not collected enough.
pub open spec fn force_complete_result(ctx: AForceComplete, now: i64) -> Result<
    (AForceComplete, CompleteEvent),
    MaxiFarmError,
> {
    let pool = ctx.pool_state;
    if ctx.owner != pool.owner {
        Err(MaxiFarmError::Unauthorised)
    } else if pool.complete {
        Err(MaxiFarmError::BondingCurveComplete)
    } else if pool.real_quote_reserves < forced_completion_floor(pool.real_quote_threshold) {
        Err(MaxiFarmError::InsufficientRealQuoteReserves)
    } else {
        Ok(
            (
                AForceComplete { pool_state: PoolState { complete: true, ..pool }, ..ctx },
                CompleteEvent { base_mint: pool.base_mint, timestamp: now },
            ),
        )
    }
}

/// Completes a pool that has collected enough, at its owner's request.
pub fn force_complete(ctx: &mut AForceComplete, now: i64) -> (res: Result<
    CompleteEvent,
    MaxiFarmError,
>)
    ensures
        match force_complete_result(*old(ctx), now) {
            Ok((next, event)) => res == Ok::<CompleteEvent, MaxiFarmError>(event) && *final(ctx)
                == next,
            Err(e) => res == Err::<CompleteEvent, MaxiFarmError>(e) && *final(ctx) == *old(ctx),
        },
        old(ctx).pool_state.wf() ==> final(ctx).pool_state.wf(),
        old(ctx).pool_state.complete ==> final(ctx).pool_state.complete,
{
    if ctx.owner != ctx.pool_state.owner {
        return Err(MaxiFarmError::Unauthorised);
    }
    if ctx.pool_state.complete {
        return Err(MaxiFarmError::BondingCurveComplete);
    }
    let floor = if ctx.pool_state.real_quote_threshold <= NORMAL_REAL_QUOTE_THRESHOLD {
        ctx.pool_state.real_quote_threshold * 4 / 5
    } else {
        NORMAL_REAL_QUOTE_THRESHOLD
    };
    if ctx.pool_state.real_quote_reserves < floor {
        return Err(MaxiFarmError::InsufficientRealQuoteReserves);
    }
    ctx.pool_state.complete = true;
    Ok(CompleteEvent { base_mint: ctx.pool_state.base_mint, timestamp: now })
}

} // verus!
