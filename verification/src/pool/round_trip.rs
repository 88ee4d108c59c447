//! Buying tokens and selling them back.

use vstd::prelude::*;
use crate::math::lemma_floor_div_bounds;
use crate::pool::ixs::buy::{bought, buy_tokens_from_exact_sol_result, exact_sol_quote, ABuy};
use crate::pool::ixs::sell::{sell_funded_result, sell_quote, ASell};
use crate::pool::state::{lemma_output_at_most_reserve, output_amount, PoolState};
use crate::utils::{fee_amount, lemma_fee_bounds, lemma_fee_is_ceiling};

verus! {

/// Selling back what a payment has bought brings at most the payment: on a
/// curve with `quote` and `base` reserves, a payment of `paid` buys
/// `bought` tokens; selling `sold` of them to the curve as it is then
/// brings no more than `paid`, and less where fewer tokens are sold than
/// were bought and the curve had quote reserves.
pub proof fn lemma_sale_returns_at_most_payment(quote: int, base: int, paid: int, sold: int)
    requires
        0 <= quote,
        0 <= base,
        0 <= paid,
        0 < quote + paid,
        0 <= sold <= output_amount(paid, quote, base),
        0 < base - output_amount(paid, quote, base) + sold,
    ensures
        output_amount(sold, base - output_amount(paid, quote, base), quote + paid) <= paid,
        quote > 0 && sold < output_amount(paid, quote, base) ==> output_amount(
            sold,
            base - output_amount(paid, quote, base),
            quote + paid,
        ) < paid,
{
    let bought = output_amount(paid, quote, base);
    let base_after = base - bought;
    let quote_after = quote + paid;
    let back = output_amount(sold, base_after, quote_after);
    lemma_floor_div_bounds(base * paid, quote + paid);
    lemma_floor_div_bounds(quote_after * sold, base_after + sold);
    let d = base_after + sold;
    // bought * (quote + paid) <= base * paid, and sold <= bought, so
    // quote_after * sold + quote * (bought - sold) <= paid * d.
    assert(quote_after * sold + quote * (bought - sold) <= paid * d) by (nonlinear_arith)
        requires
            bought * (quote + paid) <= base * paid,
            quote_after == quote + paid,
            d == base - bought + sold,
            0 <= sold <= bought,
            0 <= quote,
            0 <= paid,
    ;
    assert(quote * (bought - sold) >= 0) by (nonlinear_arith)
        requires
            0 <= quote,
            sold <= bought,
    ;
    assert(back <= paid) by (nonlinear_arith)
        requires
            back * d <= quote_after * sold,
            quote_after * sold <= paid * d,
            0 < d,
    ;
    if quote > 0 && sold < bought {
        assert(quote * (bought - sold) >= 1) by (nonlinear_arith)
            requires
                1 <= quote,
                sold + 1 <= bought,
        ;
        assert(back < paid) by (nonlinear_arith)
            requires
                back * d <= quote_after * sold,
                quote_after * sold < paid * d,
                0 < d,
        ;
    }
}

/// Buying and selling back never pays. A purchase for `quote_amount`, fee
/// included, followed at once by the sale of the tokens that it left the
/// buyer with, brings the seller at most `quote_amount`. It brings less as
/// soon as the trading fee is not zero, and, on a curve that had quote
/// reserves, as soon as the tax rate of the purchase or of the sale is not
/// zero.
pub proof fn lemma_round_trip_quotes(
    pool: PoolState,
    trading_fee: u64,
    quote_amount: u64,
    min_base_amount: u64,
    buy_tax_bps: u64,
    min_quote_amount: u64,
    sell_tax_bps: u64,
)
    requires
        quote_amount > 0,
        exact_sol_quote(pool, trading_fee, quote_amount, min_base_amount, buy_tax_bps) is Ok,
        exact_sol_quote(
            pool,
            trading_fee,
            quote_amount,
            min_base_amount,
            buy_tax_bps,
        )->Ok_0.base_amount <= pool.real_base_reserves,
        ({
            let purchase = exact_sol_quote(
                pool,
                trading_fee,
                quote_amount,
                min_base_amount,
                buy_tax_bps,
            )->Ok_0;
            sell_quote(
                bought(pool, purchase),
                trading_fee,
                (purchase.base_amount - purchase.tax) as u64,
                min_quote_amount,
                sell_tax_bps,
            ) is Ok
        }),
    ensures
        ({
            let purchase = exact_sol_quote(
                pool,
                trading_fee,
                quote_amount,
                min_base_amount,
                buy_tax_bps,
            )->Ok_0;
            let sale = sell_quote(
                bought(pool, purchase),
                trading_fee,
                (purchase.base_amount - purchase.tax) as u64,
                min_quote_amount,
                sell_tax_bps,
            )->Ok_0;
            &&& sale.output_amount <= quote_amount
            &&& trading_fee > 0 ==> sale.output_amount < quote_amount
            &&& pool.quote_reserves() > 0 && (buy_tax_bps > 0 || sell_tax_bps > 0)
                ==> sale.output_amount < quote_amount
        }),
{
    let purchase = exact_sol_quote(
        pool,
        trading_fee,
        quote_amount,
        min_base_amount,
        buy_tax_bps,
    )->Ok_0;
    let after = bought(pool, purchase);
    let kept = (purchase.base_amount - purchase.tax) as u64;
    let sale = sell_quote(after, trading_fee, kept, min_quote_amount, sell_tax_bps)->Ok_0;
    let paid = purchase.input_quote_amount as int;
    let tokens = purchase.base_amount as int;
    let quote = pool.quote_reserves();
    let base = pool.base_reserves();

    // The purchase: the net payment is at most the offer less its fee.
    lemma_fee_is_ceiling(trading_fee, quote_amount);
    lemma_fee_bounds(trading_fee, quote_amount);
    assert(paid <= quote_amount - fee_amount(trading_fee, quote_amount));
    lemma_output_at_most_reserve(paid, quote, base);
    assert(tokens == output_amount(paid, quote, base));
    lemma_fee_bounds(buy_tax_bps, purchase.base_amount);
    assert(purchase.tax == fee_amount(buy_tax_bps, purchase.base_amount));

    // The pool after the purchase.
    assert(after.quote_reserves() == quote + paid);
    assert(after.base_reserves() == base - tokens);

    // The sale.
    lemma_fee_bounds(sell_tax_bps, kept);
    let sold = sale.input_base_amount as int;
    assert(sold == kept - fee_amount(sell_tax_bps, kept));
    assert(0 <= sold <= tokens);
    let offered = output_amount(sold, base - tokens, quote + paid);
    lemma_output_at_most_reserve(sold, base - tokens, quote + paid);
    assert(after.receivable_on_sell(sale.input_base_amount) == offered);
    lemma_sale_returns_at_most_payment(quote, base, paid, sold);
    lemma_fee_is_ceiling(trading_fee, sale.quote_amount);
    assert(sale.output_amount <= sale.quote_amount <= offered <= paid);

    if pool.quote_reserves() > 0 && (buy_tax_bps > 0 || sell_tax_bps > 0) {
        if tokens == 0 {
            assert(sold == 0);
            assert((quote + paid) * 0 == 0);
            assert(offered == 0);
        } else {
            assert(sold < tokens);
        }
    }
}

/// Buying and selling back never pays, said of the operations: where a
/// purchase for `quote_amount` succeeds, and the buyer then sells the
/// tokens it was left with to the pool as the purchase left it, under the
/// same configuration, the sale brings at most `quote_amount`; it brings
/// less as soon as the trading fee is not zero, and, on a curve that had
/// quote reserves, as soon as the tax rate of the purchase or of the sale
/// is not zero.
pub proof fn lemma_round_trip(
    buy: ABuy,
    quote_amount: u64,
    min_base_amount: u64,
    buy_tax_bps: u64,
    buy_sig: Option<Vec<u8>>,
    bought_at: i64,
    sale: ASell,
    funded: bool,
    min_quote_amount: u64,
    sell_tax_bps: u64,
    sell_sig: Option<Vec<u8>>,
    sold_at: i64,
)
    requires
        buy_tokens_from_exact_sol_result(
            buy,
            quote_amount,
            min_base_amount,
            buy_tax_bps,
            buy_sig,
            bought_at,
        ) is Ok,
        ({
            let (after, purchase) = buy_tokens_from_exact_sol_result(
                buy,
                quote_amount,
                min_base_amount,
                buy_tax_bps,
                buy_sig,
                bought_at,
            )->Ok_0;
            &&& sale.pool_state == after.pool_state
            &&& sale.main_state.trading_fee == buy.main_state.trading_fee
            &&& sell_funded_result(
                sale,
                funded,
                (purchase.base_amount - purchase.tax) as u64,
                min_quote_amount,
                sell_tax_bps,
                sell_sig,
                sold_at,
            ) is Ok
        }),
    ensures
        ({
            let (after, purchase) = buy_tokens_from_exact_sol_result(
                buy,
                quote_amount,
                min_base_amount,
                buy_tax_bps,
                buy_sig,
                bought_at,
            )->Ok_0;
            let (_, proceeds) = sell_funded_result(
                sale,
                funded,
                (purchase.base_amount - purchase.tax) as u64,
                min_quote_amount,
                sell_tax_bps,
                sell_sig,
                sold_at,
            )->Ok_0;
            &&& proceeds.output_amount <= quote_amount
            &&& buy.main_state.trading_fee > 0 ==> proceeds.output_amount < quote_amount
            &&& buy.pool_state.quote_reserves() > 0 && (buy_tax_bps > 0 || sell_tax_bps > 0)
                ==> proceeds.output_amount < quote_amount
        }),
{
    let pool = buy.pool_state;
    let trading_fee = buy.main_state.trading_fee;
    let purchase = exact_sol_quote(
        pool,
        trading_fee,
        quote_amount,
        min_base_amount,
        buy_tax_bps,
    )->Ok_0;
    lemma_round_trip_quotes(
        pool,
        trading_fee,
        quote_amount,
        min_base_amount,
        buy_tax_bps,
        min_quote_amount,
        sell_tax_bps,
    );
}

} // verus!
