//! The private sale: for a while after its creation a pool trades only with
//! those who bring a signature of the configured signer over the pool's
//! token.

use vstd::prelude::*;
use crate::error::MaxiFarmError;
use crate::ledger::Instruction;
use crate::main_state::state::MainState;
use crate::pool::ed25519::{
    ed25519_ix_result,
    ed25519_program_key,
    is_ed25519_ix,
    verify_ed25519_ix,
};
use crate::pool::state::PoolState;

verus! {

/// Whether `now` lies in the pool's private sale: from its creation until
/// the period has passed.
pub open spec fn in_private_sale(pool: PoolState, now: i64) -> bool {
    pool.created_time <= now < pool.created_time + pool.priv_sale_period
}

/// The instruction that has to attest the signature: the first of the
/// transaction if it is addressed to the signature program, else the second.
pub open spec fn attesting_ix(ixs: Seq<Instruction>) -> Option<Instruction> {
    if ixs.len() >= 1 && ixs[0].program_id@ == ed25519_program_key() {
        Some(ixs[0])
    } else if ixs.len() >= 2 {
        Some(ixs[1])
    } else {
        None
    }
}

/// Whether a trade may go on: outside the private sale every trade may;
/// inside, a trade without a signature, or without an instruction to attest
/// it, is refused as missing it, and one with a signature may go on if that
/// instruction shows that the signature program has checked it over the
/// pool's token under the configured signer.
pub open spec fn access_result(
    pool: PoolState,
    main_state: MainState,
    ixs: Seq<Instruction>,
    sig: Option<Vec<u8>>,
    now: i64,
) -> Result<(), MaxiFarmError> {
    if !in_private_sale(pool, now) {
        Ok(())
    } else {
        match sig {
            None => Err(MaxiFarmError::MissingSignature),
            Some(sig) => match attesting_ix(ixs) {
                None => Err(MaxiFarmError::MissingSignature),
                Some(ix) => ed25519_ix_result(ix, main_state.signer@, pool.base_mint@, sig@),
            },
        }
    }
}

/// Whether `now` lies in the pool's private sale.
pub fn is_private_sale(pool: &PoolState, now: i64) -> (r: bool)
    ensures
        r == in_private_sale(*pool, now),
{
    if now < 0 {
        return false;
    }
    let seconds = now as u64;
    seconds >= pool.created_time && (seconds as u128) < pool.created_time as u128
        + pool.priv_sale_period as u128
}

/// Decides whether a trade on `pool` at the time `now` may go on.
pub fn check_access(
    pool: &PoolState,
    main_state: &MainState,
    ixs: &Vec<Instruction>,
    sig: &Option<Vec<u8>>,
    now: i64,
) -> (res: Result<(), MaxiFarmError>)
    ensures
        res == access_result(*pool, *main_state, ixs@, *sig, now),
{
    if !is_private_sale(pool, now) {
        return Ok(());
    }
    match sig {
        None => Err(MaxiFarmError::MissingSignature),
        Some(sig) => {
            if ixs.len() >= 1 && is_ed25519_ix(&ixs[0]) {
                verify_ed25519_ix(
                    &ixs[0],
                    main_state.signer.bytes.as_slice(),
                    pool.base_mint.bytes.as_slice(),
                    sig.as_slice(),
                )
            } else if ixs.len() >= 2 {
                verify_ed25519_ix(
                    &ixs[1],
                    main_state.signer.bytes.as_slice(),
                    pool.base_mint.bytes.as_slice(),
                    sig.as_slice(),
                )
            } else {
                Err(MaxiFarmError::MissingSignature)
            }
        },
    }
}

} // verus!
