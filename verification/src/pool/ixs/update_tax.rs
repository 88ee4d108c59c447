//! Changing the transfer tax that a pool declares.

use vstd::prelude::*;
use crate::constants::MAX_TAX;
use crate::error::MaxiFarmError;
use crate::pool::event::TaxUpdatedEvent;
use crate::pool::state::PoolState;
use crate::pubkey::Pubkey;

verus! {

/// The records that a change of the tax touches.
#[derive(Clone, Copy, Debug, PartialEq, Eq)]
pub struct AUpdateTax {
    /// Who asks for the change.
    pub owner: Pubkey,
    /// The pool.
    pub pool_state: PoolState,
}

/// What a change of the tax ends with. It is refused where another one
/// than the pool's owner asks for it, and where the tax exceeds its limit.
pub open spec fn update_tax_result(ctx: AUpdateTax, new_tax: u64) -> Result<
    (AUpdateTax, TaxUpdatedEvent),
    MaxiFarmError,
> {
    if ctx.owner != ctx.pool_state.owner {
        Err(MaxiFarmError::Unauthorised)
    } else if new_tax > MAX_TAX {
        Err(MaxiFarmError::InvalidTax)
    } else {
        Ok(
            (
                AUpdateTax { pool_state: PoolState { tax: new_tax, ..ctx.pool_state }, ..ctx },
                TaxUpdatedEvent { owner: ctx.owner, tax: new_tax },
            ),
        )
    }
}

/// Sets the transfer tax of the pool's token. Nothing else changes.
pub fn update_tax(ctx: &mut AUpdateTax, new_tax: u64) -> (res: Result<
    TaxUpdatedEvent,
    MaxiFarmError,
>)
    ensures
        match update_tax_result(*old(ctx), new_tax) {
            Ok((next, event)) => res == Ok::<TaxUpdatedEvent, MaxiFarmError>(event) && *final(ctx)
                == next,
            Err(e) => res == Err::<TaxUpdatedEvent, MaxiFarmError>(e) && *final(ctx) == *old(ctx),
        },
        old(ctx).pool_state.wf() ==> final(ctx).pool_state.wf(),
        old(ctx).pool_state.complete ==> final(ctx).pool_state.complete,
{
    if ctx.owner != ctx.pool_state.owner {
        return Err(MaxiFarmError::Unauthorised);
    }
    if new_tax > MAX_TAX {
        return Err(MaxiFarmError::InvalidTax);
    }
    ctx.pool_state.tax = new_tax;
    Ok(TaxUpdatedEvent { owner: ctx.owner, tax: new_tax })
}

} // verus!
