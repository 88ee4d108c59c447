//! Handing the configuration to a new owner.

use vstd::prelude::*;
use crate::error::MaxiFarmError;
use crate::main_state::event::OwnershipTransferred;
use crate::main_state::state::MainState;
use crate::pubkey::Pubkey;

verus! {

/// The records that a transfer of ownership touches.
#[derive(Clone, Copy, Debug, PartialEq, Eq)]
pub struct ATransferOwnership {
    /// Who asks for the transfer.
    pub owner: Pubkey,
    /// The configuration.
    pub main_state: MainState,
}

/// What a transfer of ownership to `new_owner` ends with: it is refused
/// unless the owner asks for it, and unless the new owner is another one.
pub open spec fn transfer_ownership_result(ctx: ATransferOwnership, new_owner: Pubkey) -> Result<
    OwnershipTransferred,
    MaxiFarmError,
> {
    if ctx.owner != ctx.main_state.owner {
        Err(MaxiFarmError::Unauthorised)
    } else if ctx.main_state.owner == new_owner {
        Err(MaxiFarmError::AlreadyBecameOwner)
    } else {
        Ok(OwnershipTransferred { previous_owner: ctx.main_state.owner, new_owner })
    }
}

/// Hands the configuration to `new_owner`.
pub fn transfer_ownership(ctx: &mut ATransferOwnership, new_owner: Pubkey) -> (res: Result<
    OwnershipTransferred,
    MaxiFarmError,
>)
    ensures
        res == transfer_ownership_result(*old(ctx), new_owner),
        res is Ok ==> *final(ctx) == (ATransferOwnership {
            main_state: MainState { owner: new_owner, ..old(ctx).main_state },
            ..*old(ctx)
        }),
        res is Err ==> *final(ctx) == *old(ctx),
        old(ctx).main_state.wf() ==> final(ctx).main_state.wf(),
{
    if ctx.owner != ctx.main_state.owner {
        return Err(MaxiFarmError::Unauthorised);
    }
    if ctx.main_state.owner == new_owner {
        return Err(MaxiFarmError::AlreadyBecameOwner);
    }
    let previous_owner = ctx.main_state.owner;
    ctx.main_state.owner = new_owner;
    Ok(OwnershipTransferred { previous_owner, new_owner })
}

} // verus!
