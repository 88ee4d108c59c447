//! Fee arithmetic and balance checks used by every operation.

use vstd::prelude::*;
use crate::constants::{FEE_SCALE, NATIVE_MINT_2022_STR};
use crate::error::MaxiFarmError;
use crate::ledger::TokenAccount;
use crate::pubkey::base58_text;
use crate::math::{ceil_div, lemma_ceil_div_bounds, lemma_ceil_div_unique, lemma_product_fits};

verus! {

/// The fee on `amount` at the rate `fee`, rounded up so that the fee is never
/// short of its exact value.
pub open spec fn fee_amount(fee: u64, amount: u64) -> int {
    (amount * fee + (FEE_SCALE - 1)) / (FEE_SCALE as int)
}

/// The least gross amount of which `input_amount` is left once the fee at
/// the rate `fee` is taken off. Meaningful for a rate below 100%.
pub open spec fn total_amount(fee: u64, input_amount: u64) -> int {
    ceil_div(input_amount * FEE_SCALE, FEE_SCALE - fee)
}

/// The fee on `amount` at the rate `fee`, where it fits in 64 bits.
pub open spec fn checked_fee(fee: u64, amount: u64) -> Result<u64, MaxiFarmError> {
    if fee_amount(fee, amount) <= u64::MAX {
        Ok(fee_amount(fee, amount) as u64)
    } else {
        Err(MaxiFarmError::ArithmeticError)
    }
}

/// The gross amount for `input_amount` at the rate `fee`, where the rate is
/// below 100% and the amount fits in 64 bits.
pub open spec fn checked_total_amount(fee: u64, input_amount: u64) -> Result<u64, MaxiFarmError> {
    if fee < FEE_SCALE && total_amount(fee, input_amount) <= u64::MAX {
        Ok(total_amount(fee, input_amount) as u64)
    } else {
        Err(MaxiFarmError::ArithmeticError)
    }
}

/// Fee on `amount` at the rate `fee`: `amount * fee / FEE_SCALE`, rounded
/// up. Fails where the fee exceeds 64 bits.
#[verifier::when_used_as_spec(checked_fee)]
pub fn calculate_fee(fee: u64, amount: u64) -> (res: Result<u64, MaxiFarmError>)
    ensures
        res == checked_fee(fee, amount),
{
    proof {
        lemma_product_fits(amount, fee);
    }
    let product: u128 = (amount as u128) * (fee as u128);
    let rounded: u128 = (product + (FEE_SCALE - 1)) / FEE_SCALE;
    if rounded > u64::MAX as u128 {
        Err(MaxiFarmError::ArithmeticError)
    } else {
        Ok(rounded as u64)
    }
}

/// Gross amount that leaves `input_amount` after the fee at the rate `fee`:
/// `input_amount * FEE_SCALE / (FEE_SCALE - fee)`, rounded up. Fails where
/// the rate is 100% or more, or the amount exceeds 64 bits.
#[verifier::when_used_as_spec(checked_total_amount)]
pub fn calculate_total_amount(fee: u64, input_amount: u64) -> (res: Result<u64, MaxiFarmError>)
    ensures
        res == checked_total_amount(fee, input_amount),
{
    if fee as u128 >= FEE_SCALE {
        return Err(MaxiFarmError::ArithmeticError);
    }
    let kept: u128 = FEE_SCALE - fee as u128;
    let scaled: u128 = (input_amount as u128) * FEE_SCALE;
    let rounded: u128 = (scaled + (kept - 1)) / kept;
    if rounded > u64::MAX as u128 {
        Err(MaxiFarmError::ArithmeticError)
    } else {
        Ok(rounded as u64)
    }
}

/// The fee is the least whole number that covers `amount * fee / FEE_SCALE`.
pub proof fn lemma_fee_is_ceiling(fee: u64, amount: u64)
    ensures
        fee_amount(fee, amount) == ceil_div(amount * fee, FEE_SCALE as int),
        0 <= fee_amount(fee, amount),
        (fee_amount(fee, amount) - 1) * FEE_SCALE < amount * fee <= fee_amount(fee, amount)
            * FEE_SCALE,
{
    lemma_product_fits(amount, fee);
    lemma_ceil_div_bounds(amount * fee, FEE_SCALE as int);
}

/// At a rate of at most 100% the fee does not exceed the amount, and a rate
/// of zero or an amount of zero costs nothing.
pub proof fn lemma_fee_bounds(fee: u64, amount: u64)
    ensures
        fee <= FEE_SCALE ==> fee_amount(fee, amount) <= amount,
        fee == 0 || amount == 0 ==> fee_amount(fee, amount) == 0,
        fee > 0 && amount > 0 ==> fee_amount(fee, amount) >= 1,
{
    lemma_fee_is_ceiling(fee, amount);
    let f = fee as int;
    let a = amount as int;
    let r = fee_amount(fee, amount);
    if fee <= FEE_SCALE {
        assert(a * f <= a * 10_000) by (nonlinear_arith)
            requires
                0 <= a,
                0 <= f <= 10_000,
        ;
    }
    if fee == 0 || amount == 0 {
        assert(a * f == 0) by (nonlinear_arith)
            requires
                a == 0 || f == 0,
        ;
    }
    if fee > 0 && amount > 0 {
        assert(a * f >= 1) by (nonlinear_arith)
            requires
                a >= 1,
                f >= 1,
        ;
    }
}

/// Taking the fee off the gross amount gives back the net amount it was
/// computed for, exactly.
pub proof fn lemma_total_amount_nets_exactly(fee: u64, input_amount: u64)
    requires
        fee < FEE_SCALE,
        total_amount(fee, input_amount) <= u64::MAX,
    ensures
        input_amount <= total_amount(fee, input_amount),
        total_amount(fee, input_amount) - fee_amount(fee, total_amount(fee, input_amount) as u64)
            == input_amount,
{
    let f = fee as int;
    let n = input_amount as int;
    let d = FEE_SCALE as int;
    let k = d - f;
    let g = total_amount(fee, input_amount);
    lemma_ceil_div_bounds(n * d, k);
    // g * k - k < n * d <= g * k
    let nd = n * d;
    assert(nd >= 0) by (nonlinear_arith)
        requires
            nd == n * d,
            n >= 0,
            d > 0,
    ;
    assert(g >= 0) by (nonlinear_arith)
        requires
            nd <= g * k,
            nd >= 0,
            k > 0,
    ;
    let gross = g as u64;
    // The fee on g is g - n: (g - n) * d - d < g * f <= (g - n) * d.
    assert(g * f == g * d - g * k) by (nonlinear_arith)
        requires
            k == d - f,
    ;
    assert((g - n) * d == g * d - n * d) by (nonlinear_arith);
    assert(k <= d);
    lemma_ceil_div_unique(g * f, d, g - n);
    lemma_fee_is_ceiling(fee, gross);
    assert(gross * fee == g * f);
    assert(n <= g) by (nonlinear_arith)
        requires
            n * d <= g * k,
            0 < k <= d,
            0 <= n,
            0 <= g,
    ;
}

/// Whether a token account of the mint with the text `mint_text` that
/// holds `amount` can give `require_amount`: an account of the wrapped
/// native mint always can, since it is filled on demand; any other has to
/// hold that much.
pub open spec fn balance_suffices(mint_text: Seq<char>, amount: u64, require_amount: u64) -> bool {
    mint_text == NATIVE_MINT_2022_STR@ || amount >= require_amount
}

/// Whether a token account of the mint with the text `mint_text` that
/// holds `amount` can give `require_amount`.
pub fn check_balance_of(mint_text: &str, amount: u64, require_amount: u64) -> (r: bool)
    ensures
        r == balance_suffices(mint_text@, amount, require_amount),
{
    if mint_text.to_owned() == NATIVE_MINT_2022_STR.to_owned() {
        return true;
    }
    amount >= require_amount
}

/// Whether the token account can give `require_amount`.
pub fn check_balance(ata: &TokenAccount, require_amount: u64) -> (r: bool)
    ensures
        r == balance_suffices(base58_text(ata.mint@), ata.amount, require_amount),
{
    let mint_text = ata.mint.to_base58();
    check_balance_of(mint_text.as_str(), ata.amount, require_amount)
}

/// What is missing in a token account that holds `ata_amount` for it to
/// hold `require_amount`.
pub open spec fn missing_amount(ata_amount: u64, require_amount: u64) -> u64 {
    if require_amount > ata_amount {
        (require_amount - ata_amount) as u64
    } else {
        0
    }
}

/// How much of the owner's native balance has to be wrapped for the
/// owner's wrapped native account to hold `require_amount`: what is
/// missing in it, which the owner must be able to pay.
pub fn sync_native_amount(owner_lamports: u64, ata_amount: u64, require_amount: u64) -> (res:
    Result<u64, MaxiFarmError>)
    ensures
        owner_lamports >= missing_amount(ata_amount, require_amount) ==> res == Ok::<
            u64,
            MaxiFarmError,
        >(missing_amount(ata_amount, require_amount)),
        owner_lamports < missing_amount(ata_amount, require_amount) ==> res == Err::<
            u64,
            MaxiFarmError,
        >(MaxiFarmError::InsufficientFund),
{
    let mut sync_amount: u64 = 0;
    if require_amount > ata_amount {
        sync_amount = require_amount - ata_amount;
    }
    if sync_amount != 0 && owner_lamports < sync_amount {
        return Err(MaxiFarmError::InsufficientFund);
    }
    Ok(sync_amount)
}

/// Moves `amount_of_lamports` from one native balance to another. It is
/// refused, and nothing changes, where the first balance is short of the
/// amount, or where the second would exceed 64 bits.
pub fn transfer_lamports(from_account: &mut u64, to_account: &mut u64, amount_of_lamports: u64) -> (res:
    Result<(), MaxiFarmError>)
    ensures
        *old(from_account) < amount_of_lamports ==> res == Err::<(), MaxiFarmError>(
            MaxiFarmError::InsufficientFund,
        ),
        *old(from_account) >= amount_of_lamports && *old(to_account) + amount_of_lamports
            > u64::MAX ==> res == Err::<(), MaxiFarmError>(MaxiFarmError::ArithmeticError),
        *old(from_account) >= amount_of_lamports && *old(to_account) + amount_of_lamports
            <= u64::MAX ==> res is Ok,
        res is Ok ==> *final(from_account) == *old(from_account) - amount_of_lamports && *final(to_account) == *old(to_account) + amount_of_lamports,
        res is Err ==> *final(from_account) == *old(from_account) && *final(to_account) == *old(to_account),
{
    if *from_account < amount_of_lamports {
        return Err(MaxiFarmError::InsufficientFund);
    }
    let credited = match (*to_account).checked_add(amount_of_lamports) {
        Some(sum) => sum,
        None => { return Err(MaxiFarmError::ArithmeticError); },
    };
    *from_account = *from_account - amount_of_lamports;
    *to_account = credited;
    Ok(())
}

/// Checks what a transfer of tokens has brought: the balance has to have
/// grown by `base_amount` less `tax`. It is refused as a wrong tax where it
/// has grown by anything else.
pub fn check_received(amount_before: u64, amount_after: u64, base_amount: u64, tax: u64) -> (res:
    Result<(), MaxiFarmError>)
    ensures
        amount_after < amount_before || base_amount < tax ==> res == Err::<(), MaxiFarmError>(
            MaxiFarmError::ArithmeticError,
        ),
        amount_after >= amount_before && base_amount >= tax && amount_after - amount_before
            != base_amount - tax ==> res == Err::<(), MaxiFarmError>(MaxiFarmError::InvalidTax),
        amount_after >= amount_before && base_amount >= tax && amount_after - amount_before
            == base_amount - tax ==> res is Ok,
{
    if amount_after < amount_before || base_amount < tax {
        return Err(MaxiFarmError::ArithmeticError);
    }
    if amount_after - amount_before != base_amount - tax {
        return Err(MaxiFarmError::InvalidTax);
    }
    Ok(())
}

} // verus!
