//! The bare constant-product curve: a swap leaves
//! `reserve_in * reserve_out` no smaller than it was, and pool shares convert
//! to reserve tokens in proportion.

use vstd::prelude::*;
use crate::calculator::{RoundDirection, TradingTokenResult};
use crate::math::{checked_ceil_div, div_ceil, div_floor, lemma_div_ceil_bounds,
    lemma_div_ceil_le_dividend, lemma_div_floor_bounds, lemma_div_floor_le_dividend};

verus! {

/// Namespace of the constant-product computations.
#[derive(Clone, Copy, Debug, Default, PartialEq, Eq, Structural)]
pub struct ConstantProductCurve;

/// The amount of one reserve that `lp_token_amount` shares stand for,
/// out of `lp_token_supply` shares over `swap_token_amount` tokens.
///
/// Rounding down gives `floor(shares * reserve / supply)`. Rounding up gives
/// the ceiling of the same quotient, except that a quotient below one stays
/// zero: a share quantity worth less than one token is never rounded up to a
/// whole token.
pub open spec fn spec_share_of_reserve(
    lp_token_amount: u128,
    lp_token_supply: u128,
    swap_token_amount: u128,
    round_direction: RoundDirection,
) -> int {
    let product = lp_token_amount * swap_token_amount;
    match round_direction {
        RoundDirection::Floor => div_floor(product, lp_token_supply as int),
        RoundDirection::Ceiling => if div_floor(product, lp_token_supply as int) > 0 {
            div_ceil(product, lp_token_supply as int)
        } else {
            0
        },
    }
}

impl ConstantProductCurve {
    /// The output of a swap of `source_amount` into the pool, fees aside:
    /// `floor(source * reserve_out / (reserve_in + source))`.
    ///
    /// Defined when the product and the sum fit in a `u128` and the sum is not
    /// zero.
    pub open spec fn spec_swap_base_input_without_fees(
        source_amount: u128,
        swap_source_amount: u128,
        swap_destination_amount: u128,
    ) -> Option<u128> {
        if source_amount * swap_destination_amount <= u128::MAX && 0 < swap_source_amount
            + source_amount <= u128::MAX {
            Some(
                div_floor(
                    source_amount * swap_destination_amount,
                    swap_source_amount + source_amount,
                ) as u128,
            )
        } else {
            None
        }
    }

    /// The input that a swap must bring to take `destination_amount` out of
    /// the pool, fees aside:
    /// `ceil(reserve_in * destination / (reserve_out - destination))`.
    ///
    /// Defined when the pool holds more than `destination_amount` and the
    /// product fits in a `u128`.
    pub open spec fn spec_swap_base_output_without_fees(
        destination_amount: u128,
        swap_source_amount: u128,
        swap_destination_amount: u128,
    ) -> Option<u128> {
        if swap_source_amount * destination_amount <= u128::MAX && destination_amount
            < swap_destination_amount {
            Some(
                div_ceil(
                    swap_source_amount * destination_amount,
                    swap_destination_amount - destination_amount,
                ) as u128,
            )
        } else {
            None
        }
    }

    /// The reserve tokens that `lp_token_amount` shares stand for, one amount
    /// per reserve, each as [`spec_share_of_reserve`] gives it.
    ///
    /// Defined when the supply is not zero and both products fit in a `u128`.
    pub open spec fn spec_lp_tokens_to_trading_tokens(
        lp_token_amount: u128,
        lp_token_supply: u128,
        swap_token_0_amount: u128,
        swap_token_1_amount: u128,
        round_direction: RoundDirection,
    ) -> Option<TradingTokenResult> {
        if lp_token_supply > 0 && lp_token_amount * swap_token_0_amount <= u128::MAX
            && lp_token_amount * swap_token_1_amount <= u128::MAX {
            Some(
                TradingTokenResult {
                    token_0_amount: spec_share_of_reserve(
                        lp_token_amount,
                        lp_token_supply,
                        swap_token_0_amount,
                        round_direction,
                    ) as u128,
                    token_1_amount: spec_share_of_reserve(
                        lp_token_amount,
                        lp_token_supply,
                        swap_token_1_amount,
                        round_direction,
                    ) as u128,
                },
            )
        } else {
            None
        }
    }

    /// How many destination tokens a swap of `source_amount` source tokens
    /// yields, fees aside. Rounded down, so the pool never pays out too much:
    /// on success the product of the reserves does not decrease.
    pub fn swap_base_input_without_fees(
        source_amount: u128,
        swap_source_amount: u128,
        swap_destination_amount: u128,
    ) -> (result: Option<u128>)
        ensures
            result == Self::spec_swap_base_input_without_fees(
                source_amount,
                swap_source_amount,
                swap_destination_amount,
            ),
            result matches Some(destination_amount) ==> {
                &&& destination_amount <= swap_destination_amount
                &&& (swap_source_amount + source_amount) * (swap_destination_amount
                    - destination_amount) >= swap_source_amount * swap_destination_amount
            },
    {
        // (x + delta_x) * (y - delta_y) = x * y
        // delta_y = (delta_x * y) / (x + delta_x)
        let numerator = source_amount.checked_mul(swap_destination_amount)?;
        let denominator = swap_source_amount.checked_add(source_amount)?;
        proof {
            if denominator > 0 {
                lemma_swap_keeps_product(
                    source_amount as int,
                    swap_source_amount as int,
                    swap_destination_amount as int,
                );
            }
        }
        numerator.checked_div(denominator)
    }

    /// How many source tokens a swap must bring to take `destination_amount`
    /// destination tokens out, fees aside. Rounded up, so the pool never
    /// receives too little: on success the product of the reserves does not
    /// decrease.
    pub fn swap_base_output_without_fees(
        destination_amount: u128,
        swap_source_amount: u128,
        swap_destination_amount: u128,
    ) -> (result: Option<u128>)
        ensures
            result == Self::spec_swap_base_output_without_fees(
                destination_amount,
                swap_source_amount,
                swap_destination_amount,
            ),
            result matches Some(source_amount) ==> (swap_source_amount + source_amount) * (
            swap_destination_amount - destination_amount) >= swap_source_amount
                * swap_destination_amount,
    {
        // (x + delta_x) * (y - delta_y) = x * y
        // delta_x = (x * delta_y) / (y - delta_y)
        let numerator = swap_source_amount.checked_mul(destination_amount)?;
        let denominator = swap_destination_amount.checked_sub(destination_amount)?;
        proof {
            if denominator > 0 {
                lemma_swap_input_keeps_product(
                    destination_amount as int,
                    swap_source_amount as int,
                    swap_destination_amount as int,
                );
            }
        }
        checked_ceil_div(numerator, denominator)
    }

    /// The amount of each reserve that `lp_token_amount` shares stand for,
    /// given the share supply and both reserves.
    ///
    /// Round down when paying out of the pool (a withdrawal) and up when
    /// paying into it (a deposit).
    pub fn lp_tokens_to_trading_tokens(
        lp_token_amount: u128,
        lp_token_supply: u128,
        swap_token_0_amount: u128,
        swap_token_1_amount: u128,
        round_direction: RoundDirection,
    ) -> (result: Option<TradingTokenResult>)
        ensures
            result == Self::spec_lp_tokens_to_trading_tokens(
                lp_token_amount,
                lp_token_supply,
                swap_token_0_amount,
                swap_token_1_amount,
                round_direction,
            ),
            lp_token_amount == 0 && lp_token_supply > 0 ==> result == Some(
                (TradingTokenResult { token_0_amount: 0, token_1_amount: 0 }),
            ),
    {
        proof {
            if lp_token_amount == 0 && lp_token_supply > 0 {
                lemma_no_shares_no_tokens(
                    lp_token_supply,
                    swap_token_0_amount,
                    swap_token_1_amount,
                    round_direction,
                );
            }
        }
        let product_0 = lp_token_amount.checked_mul(swap_token_0_amount)?;
        let mut token_0_amount = product_0.checked_div(lp_token_supply)?;
        let product_1 = lp_token_amount.checked_mul(swap_token_1_amount)?;
        let mut token_1_amount = product_1.checked_div(lp_token_supply)?;
        proof {
            lemma_div_floor_bounds(product_0 as int, lp_token_supply as int);
            lemma_div_floor_bounds(product_1 as int, lp_token_supply as int);
            lemma_div_ceil_bounds(product_0 as int, lp_token_supply as int);
            lemma_div_ceil_bounds(product_1 as int, lp_token_supply as int);
        }
        match round_direction {
            RoundDirection::Floor => {},
            RoundDirection::Ceiling => {
                let token_0_remainder = product_0.checked_rem(lp_token_supply)?;
                // A share quantity worth less than one token stays at zero:
                // rounding it up would charge a whole token for it.
                if token_0_remainder > 0 && token_0_amount > 0 {
                    assert(token_0_amount < product_0) by (nonlinear_arith)
                        requires
                            token_0_amount * lp_token_supply < product_0,
                            lp_token_supply > 0,
                    ;
                    token_0_amount += 1;
                }
                let token_1_remainder = product_1.checked_rem(lp_token_supply)?;
                if token_1_remainder > 0 && token_1_amount > 0 {
                    assert(token_1_amount < product_1) by (nonlinear_arith)
                        requires
                            token_1_amount * lp_token_supply < product_1,
                            lp_token_supply > 0,
                    ;
                    token_1_amount += 1;
                }
            },
        }
        Some(TradingTokenResult { token_0_amount, token_1_amount })
    }
}

/// A swap along the curve does not lower the product of the reserves: with
/// `out = floor(source * reserve_out / (reserve_in + source))`,
/// `(reserve_in + source) * (reserve_out - out) >= reserve_in * reserve_out`,
/// and `out` is no more than the pool holds.
pub proof fn lemma_swap_keeps_product(source: int, reserve_in: int, reserve_out: int)
    requires
        source >= 0,
        reserve_in >= 0,
        reserve_out >= 0,
        reserve_in + source > 0,
    ensures
        0 <= div_floor(source * reserve_out, reserve_in + source) <= reserve_out,
        (reserve_in + source) * (reserve_out - div_floor(
            source * reserve_out,
            reserve_in + source,
        )) >= reserve_in * reserve_out,
{
    let sum = reserve_in + source;
    let out = div_floor(source * reserve_out, sum);
    assert(source * reserve_out >= 0) by (nonlinear_arith)
        requires
            source >= 0,
            reserve_out >= 0,
    ;
    lemma_div_floor_bounds(source * reserve_out, sum);
    assert(out <= reserve_out) by (nonlinear_arith)
        requires
            out * sum <= source * reserve_out,
            sum >= source,
            sum > 0,
            source >= 0,
            reserve_out >= 0,
            out >= 0,
    ;
    assert(sum * (reserve_out - out) >= reserve_in * reserve_out) by (nonlinear_arith)
        requires
            out * sum <= source * reserve_out,
            sum == reserve_in + source,
    ;
}

/// Paying in what the curve asks for an output does not lower the product of
/// the reserves: with
/// `input = ceil(reserve_in * out / (reserve_out - out))`,
/// `(reserve_in + input) * (reserve_out - out) >= reserve_in * reserve_out`.
pub proof fn lemma_swap_input_keeps_product(out: int, reserve_in: int, reserve_out: int)
    requires
        reserve_in >= 0,
        0 <= out < reserve_out,
    ensures
        0 <= div_ceil(reserve_in * out, reserve_out - out) <= reserve_in * out,
        (reserve_in + div_ceil(reserve_in * out, reserve_out - out)) * (reserve_out - out)
            >= reserve_in * reserve_out,
{
    let rest = reserve_out - out;
    let input = div_ceil(reserve_in * out, rest);
    assert(reserve_in * out >= 0) by (nonlinear_arith)
        requires
            reserve_in >= 0,
            out >= 0,
    ;
    lemma_div_ceil_bounds(reserve_in * out, rest);
    lemma_div_ceil_le_dividend(reserve_in * out, rest);
    assert((reserve_in + input) * rest >= reserve_in * reserve_out) by (nonlinear_arith)
        requires
            input * rest >= reserve_in * out,
            rest == reserve_out - out,
    ;
}

/// A swap does not lower the product of the reserves, whatever the reserves
/// and the source amount: with `out` the output of
/// [`ConstantProductCurve::swap_base_input_without_fees`],
/// `(reserve_in + source) * (reserve_out - out) >= reserve_in * reserve_out`.
pub proof fn lemma_swap_base_input_keeps_product(
    source_amount: u128,
    swap_source_amount: u128,
    swap_destination_amount: u128,
)
    ensures
        ConstantProductCurve::spec_swap_base_input_without_fees(
            source_amount,
            swap_source_amount,
            swap_destination_amount,
        ) matches Some(destination_amount) ==> destination_amount <= swap_destination_amount && (
        swap_source_amount + source_amount) * (swap_destination_amount - destination_amount)
            >= swap_source_amount * swap_destination_amount,
{
    if swap_source_amount + source_amount > 0 {
        lemma_swap_keeps_product(
            source_amount as int,
            swap_source_amount as int,
            swap_destination_amount as int,
        );
    }
}

/// Swapping back and forth never favours the trader: the input that the curve
/// asks for `destination_amount`, when swapped in, yields at least
/// `destination_amount`.
pub proof fn lemma_swap_base_output_round_trip(
    destination_amount: u128,
    swap_source_amount: u128,
    swap_destination_amount: u128,
)
    ensures
        ConstantProductCurve::spec_swap_base_output_without_fees(
            destination_amount,
            swap_source_amount,
            swap_destination_amount,
        ) matches Some(source_amount) ==> (
        ConstantProductCurve::spec_swap_base_input_without_fees(
            source_amount,
            swap_source_amount,
            swap_destination_amount,
        ) matches Some(yielded) ==> yielded >= destination_amount),
{
    if let Some(source_amount) = ConstantProductCurve::spec_swap_base_output_without_fees(
        destination_amount,
        swap_source_amount,
        swap_destination_amount,
    ) {
        lemma_swap_input_keeps_product(
            destination_amount as int,
            swap_source_amount as int,
            swap_destination_amount as int,
        );
        if swap_source_amount + source_amount > 0 {
            lemma_swap_yields_at_least(
                source_amount as int,
                destination_amount as int,
                swap_source_amount as int,
                swap_destination_amount as int,
            );
        }
    }
}

/// Any source amount that keeps the product of the reserves when `out` is
/// paid for it yields at least `out` on the curve.
pub proof fn lemma_swap_yields_at_least(source: int, out: int, reserve_in: int, reserve_out: int)
    requires
        source >= 0,
        reserve_in >= 0,
        reserve_in + source > 0,
        0 <= out <= reserve_out,
        (reserve_in + source) * (reserve_out - out) >= reserve_in * reserve_out,
    ensures
        div_floor(source * reserve_out, reserve_in + source) >= out,
{
    let sum = reserve_in + source;
    let yielded = div_floor(source * reserve_out, sum);
    lemma_div_floor_bounds(source * reserve_out, sum);
    assert(yielded >= out) by (nonlinear_arith)
        requires
            sum > 0,
            sum == reserve_in + source,
            sum * (reserve_out - out) >= reserve_in * reserve_out,
            source * reserve_out < (yielded + 1) * sum,
    ;
}

/// No shares stand for no tokens, however the amounts are rounded.
pub proof fn lemma_no_shares_no_tokens(
    lp_token_supply: u128,
    swap_token_0_amount: u128,
    swap_token_1_amount: u128,
    round_direction: RoundDirection,
)
    requires
        lp_token_supply > 0,
    ensures
        ConstantProductCurve::spec_lp_tokens_to_trading_tokens(
            0,
            lp_token_supply,
            swap_token_0_amount,
            swap_token_1_amount,
            round_direction,
        ) == Some(TradingTokenResult { token_0_amount: 0, token_1_amount: 0 }),
{
    assert(0 * swap_token_0_amount == 0 && 0 * swap_token_1_amount == 0) by (nonlinear_arith);
    lemma_div_floor_bounds(0, lp_token_supply as int);
    lemma_div_floor_le_dividend(0, lp_token_supply as int);
}

/// Rounding up a share of one reserve gives the rounded-down amount or one
/// token more, and never more than is needed to cover the share: the amount
/// is below `shares * reserve / supply + 1`.
pub proof fn lemma_share_of_reserve_bounds(
    lp_token_amount: u128,
    lp_token_supply: u128,
    swap_token_amount: u128,
)
    requires
        lp_token_supply > 0,
    ensures
        ({
            let floor = spec_share_of_reserve(
                lp_token_amount,
                lp_token_supply,
                swap_token_amount,
                RoundDirection::Floor,
            );
            let ceiling = spec_share_of_reserve(
                lp_token_amount,
                lp_token_supply,
                swap_token_amount,
                RoundDirection::Ceiling,
            );
            &&& 0 <= floor <= ceiling <= floor + 1
            &&& ceiling <= lp_token_amount * swap_token_amount
            &&& floor * lp_token_supply <= lp_token_amount * swap_token_amount
            &&& (ceiling - 1) * lp_token_supply < lp_token_amount * swap_token_amount || ceiling
                == 0
        }),
{
    let product = lp_token_amount * swap_token_amount;
    assert(product >= 0) by (nonlinear_arith)
        requires
            product == lp_token_amount * swap_token_amount,
    ;
    lemma_div_floor_bounds(product, lp_token_supply as int);
    lemma_div_ceil_bounds(product, lp_token_supply as int);
    lemma_div_ceil_le_dividend(product, lp_token_supply as int);
    lemma_div_floor_le_dividend(product, lp_token_supply as int);
}

/// A deposit sized by rounding up does not dilute the pool: once the amounts
/// and the shares are added, each reserve backs a share with no less than
/// before, `(reserve + amount) / (supply + shares) >= reserve / supply`,
/// stated here without the divisions.
///
/// A share worth less than one token of a reserve is the exception. It costs
/// nothing of that reserve, so this is stated for shares that are worth
/// nothing or at least one token of each reserve.
pub proof fn lemma_deposit_keeps_backing(
    lp_token_amount: u128,
    lp_token_supply: u128,
    swap_token_0_amount: u128,
    swap_token_1_amount: u128,
)
    requires
        lp_token_amount * swap_token_0_amount == 0 || lp_token_amount * swap_token_0_amount
            >= lp_token_supply,
        lp_token_amount * swap_token_1_amount == 0 || lp_token_amount * swap_token_1_amount
            >= lp_token_supply,
    ensures
        ConstantProductCurve::spec_lp_tokens_to_trading_tokens(
            lp_token_amount,
            lp_token_supply,
            swap_token_0_amount,
            swap_token_1_amount,
            RoundDirection::Ceiling,
        ) matches Some(deposit) ==> {
            &&& (swap_token_0_amount + deposit.token_0_amount) * lp_token_supply
                >= swap_token_0_amount * (lp_token_supply + lp_token_amount)
            &&& (swap_token_1_amount + deposit.token_1_amount) * lp_token_supply
                >= swap_token_1_amount * (lp_token_supply + lp_token_amount)
        },
{
    if lp_token_supply > 0 {
        lemma_ceiling_share_covers(lp_token_amount, lp_token_supply, swap_token_0_amount);
        lemma_ceiling_share_covers(lp_token_amount, lp_token_supply, swap_token_1_amount);
        lemma_share_of_reserve_bounds(lp_token_amount, lp_token_supply, swap_token_0_amount);
        lemma_share_of_reserve_bounds(lp_token_amount, lp_token_supply, swap_token_1_amount);
    }
}

/// A share of one reserve that is worth nothing or at least one token is
/// covered in full when rounded up:
/// `amount * supply >= shares * reserve`, and so
/// `(reserve + amount) * supply >= reserve * (supply + shares)`.
pub proof fn lemma_ceiling_share_covers(
    lp_token_amount: u128,
    lp_token_supply: u128,
    swap_token_amount: u128,
)
    requires
        lp_token_supply > 0,
        lp_token_amount * swap_token_amount == 0 || lp_token_amount * swap_token_amount
            >= lp_token_supply,
    ensures
        spec_share_of_reserve(
            lp_token_amount,
            lp_token_supply,
            swap_token_amount,
            RoundDirection::Ceiling,
        ) * lp_token_supply >= lp_token_amount * swap_token_amount,
        (swap_token_amount + spec_share_of_reserve(
            lp_token_amount,
            lp_token_supply,
            swap_token_amount,
            RoundDirection::Ceiling,
        )) * lp_token_supply >= swap_token_amount * (lp_token_supply + lp_token_amount),
{
    let product = lp_token_amount * swap_token_amount;
    let supply = lp_token_supply as int;
    let amount = spec_share_of_reserve(
        lp_token_amount,
        lp_token_supply,
        swap_token_amount,
        RoundDirection::Ceiling,
    );
    lemma_div_floor_bounds(product, supply);
    lemma_div_ceil_bounds(product, supply);
    if product == 0 {
        assert(amount * supply >= 0) by (nonlinear_arith)
            requires
                amount >= 0,
                supply > 0,
        ;
    } else {
        // The floor is at least one, since the product is at least the supply.
        assert(div_floor(product, supply) >= 1) by (nonlinear_arith)
            requires
                product >= supply,
                supply > 0,
                product < (div_floor(product, supply) + 1) * supply,
        ;
    }
    assert((swap_token_amount + amount) * supply >= swap_token_amount * (supply
        + lp_token_amount)) by (nonlinear_arith)
        requires
            amount * supply >= lp_token_amount * swap_token_amount,
    ;
}

/// A withdrawal sized by rounding down does not overpay: it takes no more of
/// a reserve than the shares are worth, so once the amounts and the shares
/// are taken out, each reserve backs a share with no less than before,
/// `(reserve - amount) / (supply - shares) >= reserve / supply`, stated here
/// without the divisions. No more shares than exist take no more than the
/// pool holds.
pub proof fn lemma_withdrawal_keeps_backing(
    lp_token_amount: u128,
    lp_token_supply: u128,
    swap_token_0_amount: u128,
    swap_token_1_amount: u128,
)
    ensures
        ConstantProductCurve::spec_lp_tokens_to_trading_tokens(
            lp_token_amount,
            lp_token_supply,
            swap_token_0_amount,
            swap_token_1_amount,
            RoundDirection::Floor,
        ) matches Some(withdrawal) ==> {
            &&& (swap_token_0_amount - withdrawal.token_0_amount) * lp_token_supply
                >= swap_token_0_amount * (lp_token_supply - lp_token_amount)
            &&& (swap_token_1_amount - withdrawal.token_1_amount) * lp_token_supply
                >= swap_token_1_amount * (lp_token_supply - lp_token_amount)
            &&& lp_token_amount <= lp_token_supply ==> withdrawal.token_0_amount
                <= swap_token_0_amount && withdrawal.token_1_amount <= swap_token_1_amount
        },
{
    if lp_token_supply > 0 {
        lemma_floor_share_within(lp_token_amount, lp_token_supply, swap_token_0_amount);
        lemma_floor_share_within(lp_token_amount, lp_token_supply, swap_token_1_amount);
        lemma_share_of_reserve_bounds(lp_token_amount, lp_token_supply, swap_token_0_amount);
        lemma_share_of_reserve_bounds(lp_token_amount, lp_token_supply, swap_token_1_amount);
    }
}

/// A share of one reserve, rounded down, is worth no more than the shares:
/// `amount * supply <= shares * reserve`, and so
/// `(reserve - amount) * supply >= reserve * (supply - shares)`.
pub proof fn lemma_floor_share_within(
    lp_token_amount: u128,
    lp_token_supply: u128,
    swap_token_amount: u128,
)
    requires
        lp_token_supply > 0,
    ensures
        spec_share_of_reserve(
            lp_token_amount,
            lp_token_supply,
            swap_token_amount,
            RoundDirection::Floor,
        ) * lp_token_supply <= lp_token_amount * swap_token_amount,
        (swap_token_amount - spec_share_of_reserve(
            lp_token_amount,
            lp_token_supply,
            swap_token_amount,
            RoundDirection::Floor,
        )) * lp_token_supply >= swap_token_amount * (lp_token_supply - lp_token_amount),
        lp_token_amount <= lp_token_supply ==> spec_share_of_reserve(
            lp_token_amount,
            lp_token_supply,
            swap_token_amount,
            RoundDirection::Floor,
        ) <= swap_token_amount,
{
    let product = lp_token_amount * swap_token_amount;
    let supply = lp_token_supply as int;
    let amount = spec_share_of_reserve(
        lp_token_amount,
        lp_token_supply,
        swap_token_amount,
        RoundDirection::Floor,
    );
    lemma_div_floor_bounds(product, supply);
    assert((swap_token_amount - amount) * supply >= swap_token_amount * (supply
        - lp_token_amount)) by (nonlinear_arith)
        requires
            amount * supply <= lp_token_amount * swap_token_amount,
    ;
    if lp_token_amount <= lp_token_supply {
        assert(amount <= swap_token_amount) by (nonlinear_arith)
            requires
                amount * supply <= lp_token_amount * swap_token_amount,
                0 <= lp_token_amount <= supply,
                supply > 0,
                swap_token_amount >= 0,
        ;
    }
}

} // verus!
