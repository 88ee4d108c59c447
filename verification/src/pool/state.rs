//! A pool's reserves and the constant-product pricing against them.

use vstd::prelude::*;
use crate::constants::{MAX_PRIV_SALE_PERIOD, MAX_TAX};
use crate::error::MaxiFarmError;
use crate::math::{lemma_floor_div_bounds, lemma_product_fits};
use crate::pubkey::Pubkey;

verus! {

/// One pool: a token offered on a bonding curve against the quote asset.
#[derive(Clone, Copy, Debug, PartialEq, Eq)]
pub struct PoolState {
    /// Who created the pool.
    pub owner: Pubkey,
    /// Transfer tax of the token, on the fee scale.
    pub tax: u64,
    /// Cap on the tokens a single transfer may be taxed.
    pub max_fee_tokens: u64,
    /// The token offered.
    pub base_mint: Pubkey,
    /// Tokens that only shape the price.
    pub virt_base_reserves: u64,
    /// Tokens the pool holds.
    pub real_base_reserves: u64,
    /// Quote units that only shape the price.
    pub virt_quote_reserves: u64,
    /// Quote units the pool has collected.
    pub real_quote_reserves: u64,
    /// How much the pool has to collect to complete.
    pub real_quote_threshold: u64,
    /// When the pool was created, in seconds.
    pub created_time: u64,
    /// Length of the private sale after creation, in seconds.
    pub priv_sale_period: u64,
    /// Whether trading has ended.
    pub complete: bool,
}

/// What `input_amount` buys from a curve with the given reserves: the
/// output reserve times the input, over the input reserve after the input,
/// rounded down.
pub open spec fn output_amount(input_amount: int, input_reserve: int, output_reserve: int) -> int {
    output_reserve * input_amount / (input_reserve + input_amount)
}

/// What `output_amount` costs on a curve with the given reserves: the
/// output times the input reserve, over the output reserve after the
/// output, rounded down.
pub open spec fn input_amount(output_amount: int, input_reserve: int, output_reserve: int) -> int {
    output_amount * input_reserve / (output_reserve - output_amount)
}

impl PoolState {
    /// What holds of a pool from its creation on: its tax and its private
    /// sale period are within their limits, its threshold is not zero, and
    /// it has collected at most its threshold, and less while it trades.
    pub open spec fn wf(self) -> bool {
        &&& self.tax <= MAX_TAX
        &&& self.priv_sale_period <= MAX_PRIV_SALE_PERIOD
        &&& self.real_quote_threshold > 0
        &&& self.real_quote_reserves <= self.real_quote_threshold
        &&& !self.complete ==> self.real_quote_reserves < self.real_quote_threshold
    }

    /// Whether the pool is well formed.
    pub fn is_valid(&self) -> (r: bool)
        ensures
            r == self.wf(),
    {
        self.tax <= MAX_TAX && self.priv_sale_period <= MAX_PRIV_SALE_PERIOD
            && self.real_quote_threshold > 0 && self.real_quote_reserves
            <= self.real_quote_threshold && (self.complete || self.real_quote_reserves
            < self.real_quote_threshold)
    }

    /// The quote side of the curve: virtual and real reserves together.
    pub open spec fn quote_reserves(self) -> int {
        self.virt_quote_reserves + self.real_quote_reserves
    }

    /// The base side of the curve: virtual and real reserves together.
    pub open spec fn base_reserves(self) -> int {
        self.virt_base_reserves + self.real_base_reserves
    }

    /// Both sides of the curve fit in 64 bits.
    pub open spec fn reserves_fit(self) -> bool {
        self.quote_reserves() <= u64::MAX && self.base_reserves() <= u64::MAX
    }

    /// Tokens that `quote_amount` buys.
    pub open spec fn receivable_on_buy(self, quote_amount: u64) -> int {
        output_amount(quote_amount as int, self.quote_reserves(), self.base_reserves())
    }

    /// Quote units that buying `base_amount` tokens costs.
    pub open spec fn required_on_buy(self, base_amount: u64) -> int {
        input_amount(base_amount as int, self.quote_reserves(), self.base_reserves())
    }

    /// Quote units that selling `base_amount` tokens brings.
    pub open spec fn receivable_on_sell(self, base_amount: u64) -> int {
        output_amount(base_amount as int, self.base_reserves(), self.quote_reserves())
    }

    /// Tokens that `quote_amount` buys, where both sides of the curve fit in
    /// 64 bits and the quote side is not empty after the payment.
    pub open spec fn checked_receivable_on_buy(self, quote_amount: u64) -> Result<
        u64,
        MaxiFarmError,
    > {
        if self.reserves_fit() && self.quote_reserves() + quote_amount > 0 {
            Ok(self.receivable_on_buy(quote_amount) as u64)
        } else {
            Err(MaxiFarmError::ArithmeticError)
        }
    }

    /// Quote units that buying `base_amount` tokens costs, where both sides
    /// of the curve fit in 64 bits, the base side holds more than
    /// `base_amount`, and the cost fits in 64 bits.
    pub open spec fn checked_required_on_buy(self, base_amount: u64) -> Result<u64, MaxiFarmError> {
        if self.required_on_buy_defined(base_amount) {
            Ok(self.required_on_buy(base_amount) as u64)
        } else {
            Err(MaxiFarmError::ArithmeticError)
        }
    }

    /// Quote units that selling `base_amount` tokens brings, where both
    /// sides of the curve fit in 64 bits and the base side is not empty
    /// after the sale.
    pub open spec fn checked_receivable_on_sell(self, base_amount: u64) -> Result<
        u64,
        MaxiFarmError,
    > {
        if self.reserves_fit() && self.base_reserves() + base_amount > 0 {
            Ok(self.receivable_on_sell(base_amount) as u64)
        } else {
            Err(MaxiFarmError::ArithmeticError)
        }
    }

    /// Tokens received for `quote_amount`. Fails where a side of the curve
    /// exceeds 64 bits or the curve is empty and nothing is paid in.
    pub fn compute_receivable_amount_on_buy(&mut self, quote_amount: u64) -> (res: Result<
        u64,
        MaxiFarmError,
    >)
        ensures
            *final(self) == *old(self),
            res == old(self).checked_receivable_on_buy(quote_amount),
            res matches Ok(tokens) ==> tokens == old(self).receivable_on_buy(quote_amount)
                && tokens <= old(self).base_reserves(),
    {
        let quote = match self.virt_quote_reserves.checked_add(self.real_quote_reserves) {
            Some(sum) => sum,
            None => { return Err(MaxiFarmError::ArithmeticError); },
        };
        let base = match self.virt_base_reserves.checked_add(self.real_base_reserves) {
            Some(sum) => sum,
            None => { return Err(MaxiFarmError::ArithmeticError); },
        };
        calculate_output_amount(quote_amount, quote, base)
    }

    /// Quote units needed for `base_amount` tokens. Fails where a side of
    /// the curve exceeds 64 bits, where the curve does not hold more than
    /// `base_amount`, or where the cost exceeds 64 bits.
    pub fn compute_required_amount_on_buy(&mut self, base_amount: u64) -> (res: Result<
        u64,
        MaxiFarmError,
    >)
        ensures
            *final(self) == *old(self),
            res == old(self).checked_required_on_buy(base_amount),
    {
        let quote = match self.virt_quote_reserves.checked_add(self.real_quote_reserves) {
            Some(sum) => sum,
            None => { return Err(MaxiFarmError::ArithmeticError); },
        };
        let base = match self.virt_base_reserves.checked_add(self.real_base_reserves) {
            Some(sum) => sum,
            None => { return Err(MaxiFarmError::ArithmeticError); },
        };
        calculate_input_amount(base_amount, quote, base)
    }

    /// Whether the cost of `base_amount` tokens can be computed.
    pub open spec fn required_on_buy_defined(self, base_amount: u64) -> bool {
        &&& self.reserves_fit()
        &&& base_amount < self.base_reserves()
        &&& self.required_on_buy(base_amount) <= u64::MAX
    }

    /// Quote units received for `base_amount` tokens. Fails where a side of
    /// the curve exceeds 64 bits or the curve is empty and nothing is paid in.
    pub fn compute_receivable_amount_on_sell(&mut self, base_amount: u64) -> (res: Result<
        u64,
        MaxiFarmError,
    >)
        ensures
            *final(self) == *old(self),
            res == old(self).checked_receivable_on_sell(base_amount),
            res matches Ok(quote) ==> quote == old(self).receivable_on_sell(base_amount) && quote
                <= old(self).quote_reserves(),
    {
        let quote = match self.virt_quote_reserves.checked_add(self.real_quote_reserves) {
            Some(sum) => sum,
            None => { return Err(MaxiFarmError::ArithmeticError); },
        };
        let base = match self.virt_base_reserves.checked_add(self.real_base_reserves) {
            Some(sum) => sum,
            None => { return Err(MaxiFarmError::ArithmeticError); },
        };
        calculate_output_amount(base_amount, base, quote)
    }
}

/// What `input_amount` buys from a curve with the given reserves, unless
/// the input reserve and the input are both zero.
pub open spec fn checked_output_amount(
    input_amount: u64,
    input_reserve: u64,
    output_reserve: u64,
) -> Result<u64, MaxiFarmError> {
    if input_reserve + input_amount > 0 {
        Ok(output_amount(input_amount as int, input_reserve as int, output_reserve as int) as u64)
    } else {
        Err(MaxiFarmError::ArithmeticError)
    }
}

/// What `output_amount` costs on a curve with the given reserves, where
/// the output is below the output reserve and the cost fits in 64 bits.
pub open spec fn checked_input_amount(
    output_amount: u64,
    input_reserve: u64,
    output_reserve: u64,
) -> Result<u64, MaxiFarmError> {
    if output_amount < output_reserve && input_amount(
        output_amount as int,
        input_reserve as int,
        output_reserve as int,
    ) <= u64::MAX {
        Ok(input_amount(output_amount as int, input_reserve as int, output_reserve as int) as u64)
    } else {
        Err(MaxiFarmError::ArithmeticError)
    }
}

/// What `input_amount` buys from a curve with the given reserves. Fails only
/// where the input reserve and the input are both zero. The output never
/// exceeds the output reserve.
#[verifier::when_used_as_spec(checked_output_amount)]
pub fn calculate_output_amount(input_amount: u64, input_reserve: u64, output_reserve: u64) -> (res:
    Result<u64, MaxiFarmError>)
    ensures
        res == checked_output_amount(input_amount, input_reserve, output_reserve),
        res matches Ok(output) ==> output <= output_reserve && output == output_amount(
            input_amount as int,
            input_reserve as int,
            output_reserve as int,
        ),
{
    let after: u128 = (input_reserve as u128) + (input_amount as u128);
    if after == 0 {
        return Err(MaxiFarmError::ArithmeticError);
    }
    proof {
        lemma_product_fits(output_reserve, input_amount);
        lemma_output_at_most_reserve(input_amount as int, input_reserve as int, output_reserve as int);
    }
    let product: u128 = (output_reserve as u128) * (input_amount as u128);
    Ok((product / after) as u64)
}

/// What `output_amount` costs on a curve with the given reserves. Fails
/// where the output is not below the output reserve, or where the cost
/// exceeds 64 bits.
#[verifier::when_used_as_spec(checked_input_amount)]
pub fn calculate_input_amount(output_amount: u64, input_reserve: u64, output_reserve: u64) -> (res:
    Result<u64, MaxiFarmError>)
    ensures
        res == checked_input_amount(output_amount, input_reserve, output_reserve),
{
    if output_amount >= output_reserve {
        return Err(MaxiFarmError::ArithmeticError);
    }
    proof {
        lemma_product_fits(output_amount, input_reserve);
    }
    let left: u128 = (output_reserve as u128) - (output_amount as u128);
    let product: u128 = (output_amount as u128) * (input_reserve as u128);
    let cost: u128 = product / left;
    if cost > u64::MAX as u128 {
        Err(MaxiFarmError::ArithmeticError)
    } else {
        Ok(cost as u64)
    }
}

/// A trade never takes out more than the output reserve, and never less
/// than nothing.
pub proof fn lemma_output_at_most_reserve(input_amount: int, input_reserve: int, output_reserve: int)
    requires
        0 <= input_amount,
        0 <= input_reserve,
        0 <= output_reserve,
        0 < input_reserve + input_amount,
    ensures
        0 <= output_amount(input_amount, input_reserve, output_reserve) <= output_reserve,
{
    let d = input_reserve + input_amount;
    let x = output_reserve * input_amount;
    let q = x / d;
    lemma_floor_div_bounds(x, d);
    assert(0 <= x <= output_reserve * d) by (nonlinear_arith)
        requires
            x == output_reserve * input_amount,
            d == input_reserve + input_amount,
            0 <= input_amount,
            0 <= input_reserve,
            0 <= output_reserve,
    ;
    assert(0 <= q <= output_reserve) by (nonlinear_arith)
        requires
            0 < d,
            q * d <= x < q * d + d,
            0 <= x <= output_reserve * d,
    ;
}

/// The output of a trade does not shrink when the input grows, and never
/// exceeds the output reserve.
pub proof fn lemma_output_monotonic(
    smaller: u64,
    larger: u64,
    input_reserve: u64,
    output_reserve: u64,
)
    requires
        input_reserve > 0,
        output_reserve > 0,
        smaller <= larger,
    ensures
        output_amount(smaller as int, input_reserve as int, output_reserve as int) <= output_amount(
            larger as int,
            input_reserve as int,
            output_reserve as int,
        ) <= output_reserve,
{
    lemma_output_grows(smaller as int, larger as int, input_reserve as int, output_reserve as int);
    lemma_output_at_most_reserve(larger as int, input_reserve as int, output_reserve as int);
}

/// The output of a trade does not shrink when the input grows.
pub proof fn lemma_output_grows(smaller: int, larger: int, input_reserve: int, output_reserve: int)
    requires
        0 <= smaller <= larger,
        0 <= input_reserve,
        0 <= output_reserve,
        0 < input_reserve + smaller,
    ensures
        output_amount(smaller, input_reserve, output_reserve) <= output_amount(
            larger,
            input_reserve,
            output_reserve,
        ),
{
    let d1 = input_reserve + smaller;
    let d2 = input_reserve + larger;
    let x1 = output_reserve * smaller;
    let x2 = output_reserve * larger;
    let q1 = x1 / d1;
    let q2 = x2 / d2;
    lemma_floor_div_bounds(x1, d1);
    lemma_floor_div_bounds(x2, d2);
    // x1 * d2 <= x2 * d1, since the two differ by output_reserve * input_reserve * (larger - smaller).
    assert(x1 * d2 <= x2 * d1) by (nonlinear_arith)
        requires
            x1 == output_reserve * smaller,
            x2 == output_reserve * larger,
            d1 == input_reserve + smaller,
            d2 == input_reserve + larger,
            0 <= smaller <= larger,
            0 <= input_reserve,
            0 <= output_reserve,
    ;
    lemma_quotient_order(x1, d1, x2, d2);
}

/// Of two fractions, the one that is smaller has the smaller whole part.
pub proof fn lemma_quotient_order(x1: int, d1: int, x2: int, d2: int)
    requires
        0 < d1,
        0 < d2,
        x1 * d2 <= x2 * d1,
    ensures
        x1 / d1 <= x2 / d2,
{
    let q1 = x1 / d1;
    let q2 = x2 / d2;
    lemma_floor_div_bounds(x1, d1);
    lemma_floor_div_bounds(x2, d2);
    // q1 * d1 <= x1 and x2 < (q2 + 1) * d2, so q1 * d1 * d2 < (q2 + 1) * d2 * d1.
    assert(q1 <= q2) by (nonlinear_arith)
        requires
            0 < d1,
            0 < d2,
            q1 * d1 <= x1,
            x2 < q2 * d2 + d2,
            x1 * d2 <= x2 * d1,
    {
        assert(q1 * d1 * d2 <= x1 * d2);
        assert(x2 * d1 < (q2 * d2 + d2) * d1);
        assert((q2 * d2 + d2) * d1 == (q2 + 1) * (d1 * d2));
        assert(q1 * d1 * d2 == q1 * (d1 * d2));
        assert(q1 * (d1 * d2) < (q2 + 1) * (d1 * d2));
        assert(d1 * d2 > 0);
    }
}

} // verus!
