//! Creating the configuration.

use vstd::prelude::*;
use crate::constants::{
    DEF_TIER1_REWARD,
    DEF_TIER2_REWARD,
    DEF_TIER3_REWARD,
    DEF_TRADING_FEE,
};
use crate::main_state::event::MainStateInitialized;
use crate::main_state::state::MainState;
use crate::pubkey::Pubkey;

verus! {

/// The records that creating the configuration touches.
#[derive(Clone, Copy, Debug, PartialEq, Eq)]
pub struct AInitMainState {
    /// Who creates the configuration, and owns it from then on.
    pub owner: Pubkey,
    /// The configuration to fill in.
    pub main_state: MainState,
}

/// The configuration as it is created by `owner` with `signer` attesting
/// private sales: the owner also withdraws and receives fees, the trading
/// fee is half a percent, and the referral rewards are the default ones.
pub open spec fn initial_main_state(owner: Pubkey, signer: Pubkey) -> MainState {
    MainState {
        owner,
        signer,
        withdrawer: owner,
        trading_fee: DEF_TRADING_FEE,
        fee_recipient: owner,
        tier1_reward: DEF_TIER1_REWARD,
        tier2_reward: DEF_TIER2_REWARD,
        tier3_reward: DEF_TIER3_REWARD,
    }
}

/// Creates the configuration.
pub fn init_main_state(ctx: &mut AInitMainState, signer: Pubkey) -> (event: MainStateInitialized)
    ensures
        final(ctx).owner == old(ctx).owner,
        final(ctx).main_state == initial_main_state(old(ctx).owner, signer),
        final(ctx).main_state.wf(),
        event == (MainStateInitialized {
            owner: old(ctx).owner,
            signer,
            withdrawer: old(ctx).owner,
            trading_fee: DEF_TRADING_FEE,
            fee_recipient: old(ctx).owner,
        }),
{
    let owner = ctx.owner;
    ctx.main_state = MainState {
        owner,
        signer,
        withdrawer: owner,
        trading_fee: DEF_TRADING_FEE,
        fee_recipient: owner,
        tier1_reward: DEF_TIER1_REWARD,
        tier2_reward: DEF_TIER2_REWARD,
        tier3_reward: DEF_TIER3_REWARD,
    };
    MainStateInitialized {
        owner,
        signer,
        withdrawer: owner,
        trading_fee: ctx.main_state.trading_fee,
        fee_recipient: owner,
    }
}

} // verus!
