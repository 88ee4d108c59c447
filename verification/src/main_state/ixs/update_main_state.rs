//! Changing the configuration.

use vstd::prelude::*;
use crate::constants::MAX_TRADING_FEE;
use crate::error::MaxiFarmError;
use crate::main_state::event::MainStateUpdated;
use crate::main_state::state::MainState;
use crate::pubkey::Pubkey;

verus! {

/// The new values of the configuration.
#[derive(Clone, Copy, Debug, PartialEq, Eq)]
pub struct UpdateMainStateInput {
    pub signer: Pubkey,
    pub withdrawer: Pubkey,
    pub trading_fee: u64,
    pub fee_recipient: Pubkey,
}

/// The records that a change of the configuration touches.
#[derive(Clone, Copy, Debug, PartialEq, Eq)]
pub struct AUpdateMainState {
    /// Who asks for the change.
    pub owner: Pubkey,
    /// The configuration.
    pub main_state: MainState,
}

/// What a change of the configuration ends with: it is refused unless the
/// owner asks for it, and unless the new trading fee is within its limit.
pub open spec fn update_main_state_result(
    ctx: AUpdateMainState,
    input: UpdateMainStateInput,
) -> Result<MainStateUpdated, MaxiFarmError> {
    if ctx.owner != ctx.main_state.owner {
        Err(MaxiFarmError::Unauthorised)
    } else if input.trading_fee > MAX_TRADING_FEE {
        Err(MaxiFarmError::InvalidTradingFee)
    } else {
        Ok(
            MainStateUpdated {
                signer: input.signer,
                withdrawer: input.withdrawer,
                trading_fee: input.trading_fee,
                fee_recipient: input.fee_recipient,
            },
        )
    }
}

/// Sets the signer, the withdrawer, the trading fee and the fee recipient.
pub fn update_main_state(ctx: &mut AUpdateMainState, input: UpdateMainStateInput) -> (res: Result<
    MainStateUpdated,
    MaxiFarmError,
>)
    ensures
        res == update_main_state_result(*old(ctx), input),
        res is Ok ==> *final(ctx) == (AUpdateMainState {
            main_state: MainState {
                signer: input.signer,
                withdrawer: input.withdrawer,
                trading_fee: input.trading_fee,
                fee_recipient: input.fee_recipient,
                ..old(ctx).main_state
            },
            ..*old(ctx)
        }),
        res is Ok && old(ctx).main_state.wf() ==> final(ctx).main_state.wf(),
        res is Err ==> *final(ctx) == *old(ctx),
{
    if ctx.owner != ctx.main_state.owner {
        return Err(MaxiFarmError::Unauthorised);
    }
    if input.trading_fee > MAX_TRADING_FEE {
        return Err(MaxiFarmError::InvalidTradingFee);
    }
    ctx.main_state.signer = input.signer;
    ctx.main_state.withdrawer = input.withdrawer;
    ctx.main_state.trading_fee = input.trading_fee;
    ctx.main_state.fee_recipient = input.fee_recipient;
    Ok(
        MainStateUpdated {
            signer: input.signer,
            withdrawer: input.withdrawer,
            trading_fee: input.trading_fee,
            fee_recipient: input.fee_recipient,
        },
    )
}

} // verus!
