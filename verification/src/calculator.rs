//! The swap and liquidity calculations: fees and curve combined.

use vstd::prelude::*;
use crate::constant_product::{lemma_swap_input_keeps_product, lemma_swap_keeps_product,
    lemma_swap_yields_at_least, ConstantProductCurve};
use crate::fees::{lemma_fee_shares_within_trade_fee, lemma_pre_fee_amount_inverts_trading_fee,
    lemma_trading_fee_within_amount, Fees, FEE_RATE_DENOMINATOR_VALUE};
use crate::math::{lemma_div_ceil_bounds, lemma_div_ceil_le_dividend};

verus! {

/// Maps zero to `None` and any other amount to itself.
pub fn map_zero_to_none(x: u128) -> (result: Option<u128>)
    ensures
        result == (if x == 0 {
            None
        } else {
            Some(x)
        }),
{
    if x == 0 {
        None
    } else {
        Some(x)
    }
}

/// Names the failure of a calculation: an absent result becomes
/// [`CurveError::CalculationFailure`], a present one is handed on.
pub fn ok_or_calculation_failure<T>(value: Option<T>) -> (result: Result<T, CurveError>)
    ensures
        result == (match value {
            Some(v) => Ok::<T, CurveError>(v),
            None => Err(CurveError::CalculationFailure),
        }),
{
    match value {
        Some(v) => Ok(v),
        None => Err(CurveError::CalculationFailure),
    }
}

/// Which reserve a trade pays into.
#[derive(Clone, Copy, Debug, PartialEq, Eq, Structural)]
pub enum TradeDirection {
    /// Token 0 in, token 1 out.
    ZeroForOne,
    /// Token 1 in, token 0 out.
    OneForZero,
}

/// How a conversion of pool shares into reserve tokens is rounded.
#[derive(Clone, Copy, Debug, PartialEq, Eq, Structural)]
pub enum RoundDirection {
    /// Round down, as for a withdrawal: 1.9 => 1, 1.1 => 1, 1.5 => 1.
    Floor,
    /// Round up, as for a deposit: 1.9 => 2, 1.1 => 2, 1.5 => 2.
    Ceiling,
}

impl TradeDirection {
    /// The other direction.
    pub open spec fn spec_opposite(self) -> TradeDirection {
        match self {
            TradeDirection::ZeroForOne => TradeDirection::OneForZero,
            TradeDirection::OneForZero => TradeDirection::ZeroForOne,
        }
    }

    /// The direction of the reverse trade: A to B becomes B to A.
    pub fn opposite(&self) -> (result: TradeDirection)
        ensures
            result == self.spec_opposite(),
            result != *self,
            result.spec_opposite() == *self,
    {
        match self {
            TradeDirection::ZeroForOne => TradeDirection::OneForZero,
            TradeDirection::OneForZero => TradeDirection::ZeroForOne,
        }
    }
}

/// The reserve tokens that a quantity of pool shares stands for.
#[derive(Clone, Copy, Debug, PartialEq, Eq, Structural)]
pub struct TradingTokenResult {
    /// Amount of token 0.
    pub token_0_amount: u128,
    /// Amount of token 1.
    pub token_1_amount: u128,
}

/// The outcome of a swap: the reserves after it, the amounts that moved, and
/// the fees withheld from the source amount.
#[derive(Clone, Copy, Debug, PartialEq, Eq, Structural)]
pub struct SwapResult {
    /// The source reserve after the swap.
    pub new_swap_source_amount: u128,
    /// The destination reserve after the swap.
    pub new_swap_destination_amount: u128,
    /// Source tokens paid in, fees included.
    pub source_amount_swapped: u128,
    /// Destination tokens paid out.
    pub destination_amount_swapped: u128,
    /// Source tokens withheld as the trade fee; they stay in the pool.
    pub trade_fee: u128,
    /// The part of the trade fee that is owed to the protocol.
    pub protocol_fee: u128,
    /// The part of the trade fee that is owed to the fund.
    pub fund_fee: u128,
}

impl SwapResult {
    /// Whether this result settles a swap against the given reserves: the
    /// source amount joins the source reserve, the destination amount leaves
    /// the destination reserve, the product of the reserves does not decrease,
    /// and the trade fee is part of the source amount.
    pub open spec fn settles(self, swap_source_amount: u128, swap_destination_amount: u128)
        -> bool {
        &&& self.new_swap_source_amount == swap_source_amount + self.source_amount_swapped
        &&& self.new_swap_destination_amount == swap_destination_amount
            - self.destination_amount_swapped
        &&& self.new_swap_source_amount * self.new_swap_destination_amount >= swap_source_amount
            * swap_destination_amount
        &&& self.trade_fee <= self.source_amount_swapped
    }
}

/// Why a calculation gave no result.
#[derive(Clone, Copy, Debug, PartialEq, Eq, Structural)]
pub enum CurveError {
    /// A step overflowed, underflowed or divided by zero.
    CalculationFailure,
    /// A pool was given an empty reserve.
    EmptySupply,
}

/// Namespace of the swap and liquidity calculations.
#[derive(Clone, Copy, Debug, Default, PartialEq, Eq, Structural)]
pub struct CurveCalculator {}

impl CurveCalculator {
    /// The result of swapping exactly `source_amount` source tokens.
    ///
    /// The trade fee is withheld from the source amount and the rest is
    /// swapped along the curve. The whole source amount, fee included, joins
    /// the source reserve. Undefined as soon as one step is.
    pub open spec fn spec_swap_base_input(
        source_amount: u128,
        swap_source_amount: u128,
        swap_destination_amount: u128,
        trade_fee_rate: u64,
        protocol_fee_rate: u64,
        fund_fee_rate: u64,
    ) -> Option<SwapResult> {
        match Fees::spec_trading_fee(source_amount, trade_fee_rate) {
            Some(trade_fee) => match (
                Fees::spec_protocol_fee(trade_fee, protocol_fee_rate),
                Fees::spec_fund_fee(trade_fee, fund_fee_rate),
            ) {
                (Some(protocol_fee), Some(fund_fee)) => if trade_fee <= source_amount {
                    match ConstantProductCurve::spec_swap_base_input_without_fees(
                        (source_amount - trade_fee) as u128,
                        swap_source_amount,
                        swap_destination_amount,
                    ) {
                        Some(destination_amount_swapped) => if swap_source_amount + source_amount
                            <= u128::MAX {
                            Some(
                                SwapResult {
                                    new_swap_source_amount: (swap_source_amount
                                        + source_amount) as u128,
                                    new_swap_destination_amount: (swap_destination_amount
                                        - destination_amount_swapped) as u128,
                                    source_amount_swapped: source_amount,
                                    destination_amount_swapped,
                                    trade_fee,
                                    protocol_fee,
                                    fund_fee,
                                },
                            )
                        } else {
                            None
                        },
                        None => None,
                    }
                } else {
                    None
                },
                _ => None,
            },
            None => None,
        }
    }

    /// The result of swapping for exactly `destination_amount` destination
    /// tokens.
    ///
    /// The curve gives the source amount that must reach the pool; the trade
    /// fee is put on top of it, and is then taken anew from the gross amount so
    /// that it is rounded as in a swap of that amount. Undefined as soon as one
    /// step is.
    pub open spec fn spec_swap_base_output(
        destination_amount: u128,
        swap_source_amount: u128,
        swap_destination_amount: u128,
        trade_fee_rate: u64,
        protocol_fee_rate: u64,
        fund_fee_rate: u64,
    ) -> Option<SwapResult> {
        match ConstantProductCurve::spec_swap_base_output_without_fees(
            destination_amount,
            swap_source_amount,
            swap_destination_amount,
        ) {
            Some(source_amount_swapped) => match Fees::spec_calculate_pre_fee_amount(
                source_amount_swapped,
                trade_fee_rate,
            ) {
                Some(source_amount) => match Fees::spec_trading_fee(
                    source_amount,
                    trade_fee_rate,
                ) {
                    Some(trade_fee) => match (
                        Fees::spec_protocol_fee(trade_fee, protocol_fee_rate),
                        Fees::spec_fund_fee(trade_fee, fund_fee_rate),
                    ) {
                        (Some(protocol_fee), Some(fund_fee)) => if swap_source_amount
                            + source_amount <= u128::MAX {
                            Some(
                                SwapResult {
                                    new_swap_source_amount: (swap_source_amount
                                        + source_amount) as u128,
                                    new_swap_destination_amount: (swap_destination_amount
                                        - destination_amount) as u128,
                                    source_amount_swapped: source_amount,
                                    destination_amount_swapped: destination_amount,
                                    trade_fee,
                                    protocol_fee,
                                    fund_fee,
                                },
                            )
                        } else {
                            None
                        },
                        _ => None,
                    },
                    None => None,
                },
                None => None,
            },
            None => None,
        }
    }

    /// Checks that a pool starts with something in both reserves.
    pub fn validate_supply(token_0_amount: u64, token_1_amount: u64) -> (result: Result<
        (),
        CurveError,
    >)
        ensures
            result is Ok <==> token_0_amount > 0 && token_1_amount > 0,
            result matches Err(e) ==> e == CurveError::EmptySupply,
    {
        if token_0_amount == 0 {
            return Err(CurveError::EmptySupply);
        }
        if token_1_amount == 0 {
            return Err(CurveError::EmptySupply);
        }
        Ok(())
    }

    /// Withholds the fees from `source_amount` and swaps the rest: how many
    /// destination tokens that yields, and what the reserves become.
    ///
    /// On success the result settles the swap against the reserves given (see
    /// [`SwapResult::settles`]), and the protocol and fund fees together stay
    /// within the trade fee whenever their rates together stay within the
    /// whole.
    pub fn swap_base_input(
        source_amount: u128,
        swap_source_amount: u128,
        swap_destination_amount: u128,
        trade_fee_rate: u64,
        protocol_fee_rate: u64,
        fund_fee_rate: u64,
    ) -> (result: Option<SwapResult>)
        ensures
            result == Self::spec_swap_base_input(
                source_amount,
                swap_source_amount,
                swap_destination_amount,
                trade_fee_rate,
                protocol_fee_rate,
                fund_fee_rate,
            ),
            result matches Some(swap) ==> swap.settles(swap_source_amount, swap_destination_amount),
            result matches Some(swap) ==> (protocol_fee_rate + fund_fee_rate
                <= FEE_RATE_DENOMINATOR_VALUE ==> swap.protocol_fee + swap.fund_fee
                <= swap.trade_fee),
    {
        // The fees come off the source amount before the swap.
        let trade_fee = Fees::trading_fee(source_amount, trade_fee_rate)?;
        let protocol_fee = Fees::protocol_fee(trade_fee, protocol_fee_rate)?;
        let fund_fee = Fees::fund_fee(trade_fee, fund_fee_rate)?;

        let source_amount_less_fees = source_amount.checked_sub(trade_fee)?;

        let destination_amount_swapped = ConstantProductCurve::swap_base_input_without_fees(
            source_amount_less_fees,
            swap_source_amount,
            swap_destination_amount,
        )?;

        let new_swap_source_amount = swap_source_amount.checked_add(source_amount)?;
        let new_swap_destination_amount = swap_destination_amount.checked_sub(
            destination_amount_swapped,
        )?;
        proof {
            lemma_fee_shares_within_trade_fee(trade_fee, protocol_fee_rate, fund_fee_rate);
            assert(new_swap_source_amount * new_swap_destination_amount >= swap_source_amount
                * swap_destination_amount) by (nonlinear_arith)
                requires
                    (swap_source_amount + source_amount_less_fees) * (swap_destination_amount
                        - destination_amount_swapped) >= swap_source_amount
                        * swap_destination_amount,
                    new_swap_source_amount >= swap_source_amount + source_amount_less_fees,
                    new_swap_destination_amount == swap_destination_amount
                        - destination_amount_swapped,
            ;
        }
        Some(
            SwapResult {
                new_swap_source_amount,
                new_swap_destination_amount,
                source_amount_swapped: source_amount,
                destination_amount_swapped,
                trade_fee,
                protocol_fee,
                fund_fee,
            },
        )
    }

    /// Finds the source amount, fees included, that buys exactly
    /// `destination_amount` destination tokens, and what the reserves become.
    ///
    /// On success the result settles the swap against the reserves given (see
    /// [`SwapResult::settles`]), and the protocol and fund fees together stay
    /// within the trade fee whenever their rates together stay within the
    /// whole. The trade fee is exactly what the source amount holds beyond the
    /// curve's price for the output.
    pub fn swap_base_output(
        destination_amount: u128,
        swap_source_amount: u128,
        swap_destination_amount: u128,
        trade_fee_rate: u64,
        protocol_fee_rate: u64,
        fund_fee_rate: u64,
    ) -> (result: Option<SwapResult>)
        ensures
            result == Self::spec_swap_base_output(
                destination_amount,
                swap_source_amount,
                swap_destination_amount,
                trade_fee_rate,
                protocol_fee_rate,
                fund_fee_rate,
            ),
            result matches Some(swap) ==> swap.settles(swap_source_amount, swap_destination_amount),
            result matches Some(swap) ==> (protocol_fee_rate + fund_fee_rate
                <= FEE_RATE_DENOMINATOR_VALUE ==> swap.protocol_fee + swap.fund_fee
                <= swap.trade_fee),
            result matches Some(swap) ==> ConstantProductCurve::spec_swap_base_output_without_fees(
                destination_amount,
                swap_source_amount,
                swap_destination_amount,
            ) == Some((swap.source_amount_swapped - swap.trade_fee) as u128),
    {
        let source_amount_swapped = ConstantProductCurve::swap_base_output_without_fees(
            destination_amount,
            swap_source_amount,
            swap_destination_amount,
        )?;

        let source_amount = Fees::calculate_pre_fee_amount(source_amount_swapped, trade_fee_rate)?;
        let trade_fee = Fees::trading_fee(source_amount, trade_fee_rate)?;
        let protocol_fee = Fees::protocol_fee(trade_fee, protocol_fee_rate)?;
        let fund_fee = Fees::fund_fee(trade_fee, fund_fee_rate)?;

        let new_swap_source_amount = swap_source_amount.checked_add(source_amount)?;
        let new_swap_destination_amount = swap_destination_amount.checked_sub(destination_amount)?;
        proof {
            lemma_fee_shares_within_trade_fee(trade_fee, protocol_fee_rate, fund_fee_rate);
            lemma_pre_fee_amount_inverts_trading_fee(source_amount_swapped, trade_fee_rate);
            lemma_swap_input_keeps_product(
                destination_amount as int,
                swap_source_amount as int,
                swap_destination_amount as int,
            );
            assert(new_swap_source_amount * new_swap_destination_amount >= swap_source_amount
                * swap_destination_amount) by (nonlinear_arith)
                requires
                    (swap_source_amount + source_amount_swapped) * (swap_destination_amount
                        - destination_amount) >= swap_source_amount * swap_destination_amount,
                    new_swap_source_amount >= swap_source_amount + source_amount_swapped,
                    new_swap_destination_amount == swap_destination_amount - destination_amount,
                    new_swap_destination_amount >= 0,
            ;
        }
        Some(
            SwapResult {
                new_swap_source_amount,
                new_swap_destination_amount,
                source_amount_swapped: source_amount,
                destination_amount_swapped: destination_amount,
                trade_fee,
                protocol_fee,
                fund_fee,
            },
        )
    }

    /// The amount of each reserve that `lp_token_amount` pool shares stand
    /// for, given the share supply and both reserves.
    pub fn lp_tokens_to_trading_tokens(
        lp_token_amount: u128,
        lp_token_supply: u128,
        swap_token_0_amount: u128,
        swap_token_1_amount: u128,
        round_direction: RoundDirection,
    ) -> (result: Option<TradingTokenResult>)
        ensures
            result == ConstantProductCurve::spec_lp_tokens_to_trading_tokens(
                lp_token_amount,
                lp_token_supply,
                swap_token_0_amount,
                swap_token_1_amount,
                round_direction,
            ),
            lp_token_amount == 0 && lp_token_supply > 0 ==> result == Some(
                (TradingTokenResult { token_0_amount: 0, token_1_amount: 0 }),
            ),
    {
        ConstantProductCurve::lp_tokens_to_trading_tokens(
            lp_token_amount,
            lp_token_supply,
            swap_token_0_amount,
            swap_token_1_amount,
            round_direction,
        )
    }
}

/// Buying exactly `destination_amount` and then swapping the price paid back
/// in never yields less: a swap of the gross amount that
/// [`CurveCalculator::swap_base_output`] asks for pays out at least
/// `destination_amount`, at the same trade fee.
pub proof fn lemma_swap_base_output_then_input(
    destination_amount: u128,
    swap_source_amount: u128,
    swap_destination_amount: u128,
    trade_fee_rate: u64,
    protocol_fee_rate: u64,
    fund_fee_rate: u64,
)
    ensures
        CurveCalculator::spec_swap_base_output(
            destination_amount,
            swap_source_amount,
            swap_destination_amount,
            trade_fee_rate,
            protocol_fee_rate,
            fund_fee_rate,
        ) matches Some(bought) ==> (CurveCalculator::spec_swap_base_input(
            bought.source_amount_swapped,
            swap_source_amount,
            swap_destination_amount,
            trade_fee_rate,
            protocol_fee_rate,
            fund_fee_rate,
        ) matches Some(sold) ==> sold.destination_amount_swapped >= destination_amount
            && sold.trade_fee == bought.trade_fee),
{
    if let Some(bought) = CurveCalculator::spec_swap_base_output(
        destination_amount,
        swap_source_amount,
        swap_destination_amount,
        trade_fee_rate,
        protocol_fee_rate,
        fund_fee_rate,
    ) {
        if let Some(sold) = CurveCalculator::spec_swap_base_input(
            bought.source_amount_swapped,
            swap_source_amount,
            swap_destination_amount,
            trade_fee_rate,
            protocol_fee_rate,
            fund_fee_rate,
        ) {
            let net = ConstantProductCurve::spec_swap_base_output_without_fees(
                destination_amount,
                swap_source_amount,
                swap_destination_amount,
            )->0;
            let gross = bought.source_amount_swapped;
            let left = gross - sold.trade_fee;
            lemma_pre_fee_amount_inverts_trading_fee(net, trade_fee_rate);
            lemma_swap_input_keeps_product(
                destination_amount as int,
                swap_source_amount as int,
                swap_destination_amount as int,
            );
            assert((swap_source_amount + left) * (swap_destination_amount - destination_amount)
                >= swap_source_amount * swap_destination_amount) by (nonlinear_arith)
                requires
                    (swap_source_amount + net) * (swap_destination_amount - destination_amount)
                        >= swap_source_amount * swap_destination_amount,
                    left >= net,
                    swap_destination_amount - destination_amount >= 0,
            ;
            lemma_swap_yields_at_least(
                left,
                destination_amount as int,
                swap_source_amount as int,
                swap_destination_amount as int,
            );
        }
    }
}

/// A swap of an exact input between reserves that fit in 64 bits always has a
/// result, provided that the source reserve holds something and the trade
/// fee rate is at most the whole.
pub proof fn lemma_swap_base_input_succeeds(
    source_amount: u128,
    swap_source_amount: u128,
    swap_destination_amount: u128,
    trade_fee_rate: u64,
    protocol_fee_rate: u64,
    fund_fee_rate: u64,
)
    requires
        source_amount <= u64::MAX,
        1 <= swap_source_amount <= u64::MAX,
        swap_destination_amount <= u64::MAX,
        trade_fee_rate <= FEE_RATE_DENOMINATOR_VALUE,
    ensures
        CurveCalculator::spec_swap_base_input(
            source_amount,
            swap_source_amount,
            swap_destination_amount,
            trade_fee_rate,
            protocol_fee_rate,
            fund_fee_rate,
        ) is Some,
{
    let limit = u64::MAX as int;
    assert(source_amount * trade_fee_rate <= limit * 1_000_000) by (nonlinear_arith)
        requires
            0 <= source_amount <= limit,
            0 <= trade_fee_rate <= 1_000_000,
    ;
    lemma_trading_fee_within_amount(source_amount, trade_fee_rate);
    let trade_fee = Fees::spec_trading_fee(source_amount, trade_fee_rate)->0;
    lemma_div_ceil_bounds(source_amount * trade_fee_rate, FEE_RATE_DENOMINATOR_VALUE as int);
    assert(trade_fee * protocol_fee_rate <= limit * limit && trade_fee * fund_fee_rate <= limit
        * limit) by (nonlinear_arith)
        requires
            0 <= trade_fee <= limit,
            0 <= protocol_fee_rate <= limit,
            0 <= fund_fee_rate <= limit,
    ;
    let left = (source_amount - trade_fee) as u128;
    assert(left * swap_destination_amount <= limit * limit) by (nonlinear_arith)
        requires
            0 <= left <= limit,
            0 <= swap_destination_amount <= limit,
    ;
    assert(limit * limit <= u128::MAX) by (nonlinear_arith)
        requires
            limit == 0xffff_ffff_ffff_ffff,
    ;
    lemma_swap_keeps_product(left as int, swap_source_amount as int, swap_destination_amount as int);
}

/// A swap for an exact output has a result whenever the curve's price for it
/// and the source reserve fit in 64 bits, the trade fee rate is below the
/// whole and the protocol and fund fee rates are at most the whole.
pub proof fn lemma_swap_base_output_succeeds(
    destination_amount: u128,
    swap_source_amount: u128,
    swap_destination_amount: u128,
    trade_fee_rate: u64,
    protocol_fee_rate: u64,
    fund_fee_rate: u64,
)
    requires
        ConstantProductCurve::spec_swap_base_output_without_fees(
            destination_amount,
            swap_source_amount,
            swap_destination_amount,
        ) matches Some(price) && price <= u64::MAX,
        swap_source_amount <= u64::MAX,
        trade_fee_rate < FEE_RATE_DENOMINATOR_VALUE,
        protocol_fee_rate <= FEE_RATE_DENOMINATOR_VALUE,
        fund_fee_rate <= FEE_RATE_DENOMINATOR_VALUE,
    ensures
        CurveCalculator::spec_swap_base_output(
            destination_amount,
            swap_source_amount,
            swap_destination_amount,
            trade_fee_rate,
            protocol_fee_rate,
            fund_fee_rate,
        ) is Some,
{
    let limit = u64::MAX as int;
    let d = FEE_RATE_DENOMINATOR_VALUE as int;
    let price = ConstantProductCurve::spec_swap_base_output_without_fees(
        destination_amount,
        swap_source_amount,
        swap_destination_amount,
    )->0;
    assert(price * d <= limit * 1_000_000) by (nonlinear_arith)
        requires
            0 <= price <= limit,
            d == 1_000_000,
    ;
    let gross = Fees::spec_calculate_pre_fee_amount(price, trade_fee_rate)->0;
    if trade_fee_rate > 0 {
        lemma_div_ceil_le_dividend(price * d, d - trade_fee_rate);
    }
    assert(gross <= limit * 1_000_000);
    assert(gross * trade_fee_rate <= limit * 1_000_000 * 1_000_000) by (nonlinear_arith)
        requires
            0 <= gross <= limit * 1_000_000,
            0 <= trade_fee_rate <= 1_000_000,
    ;
    lemma_trading_fee_within_amount(gross, trade_fee_rate);
    let trade_fee = Fees::spec_trading_fee(gross, trade_fee_rate)->0;
    lemma_div_ceil_bounds(gross * trade_fee_rate, d);
    assert(trade_fee * protocol_fee_rate <= limit * 1_000_000 * 1_000_000 && trade_fee
        * fund_fee_rate <= limit * 1_000_000 * 1_000_000) by (nonlinear_arith)
        requires
            0 <= trade_fee <= limit * 1_000_000,
            0 <= protocol_fee_rate <= 1_000_000,
            0 <= fund_fee_rate <= 1_000_000,
    ;
}

} // verus!
