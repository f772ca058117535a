//! Fee arithmetic. A rate is a numerator over [`FEE_RATE_DENOMINATOR_VALUE`].
//!
//! The trade fee is rounded up, so the pool never collects too little. The
//! protocol and fund fees are shares of the trade fee and are rounded down, so
//! neither claimant takes more than its share.

use vstd::prelude::*;
use crate::math::{div_ceil, div_floor, lemma_div_ceil_bounds, lemma_div_ceil_by_rounding_up,
    lemma_div_ceil_le_dividend, lemma_div_floor_bounds, lemma_div_floor_le_dividend};

verus! {

/// The denominator of every fee rate: a rate of `n` means `n / 1_000_000`.
pub const FEE_RATE_DENOMINATOR_VALUE: u64 = 1_000_000;

/// Namespace of the fee computations.
pub struct Fees {}

/// What [`ceil_div`] returns: the ceiling of
/// `token_amount * fee_numerator / fee_denominator`, provided that the
/// denominator is positive and `token_amount * fee_numerator + fee_denominator`
/// fits in a `u128`.
pub open spec fn spec_ceil_div(
    token_amount: u128,
    fee_numerator: u128,
    fee_denominator: u128,
) -> Option<u128> {
    if fee_denominator > 0 && token_amount * fee_numerator + fee_denominator <= u128::MAX {
        Some(div_ceil(token_amount * fee_numerator, fee_denominator as int) as u128)
    } else {
        None
    }
}

/// What [`floor_div`] returns: the floor of
/// `token_amount * fee_numerator / fee_denominator`, provided that the
/// denominator is positive and the product fits in a `u128`.
pub open spec fn spec_floor_div(
    token_amount: u128,
    fee_numerator: u128,
    fee_denominator: u128,
) -> Option<u128> {
    if fee_denominator > 0 && token_amount * fee_numerator <= u128::MAX {
        Some(div_floor(token_amount * fee_numerator, fee_denominator as int) as u128)
    } else {
        None
    }
}

/// `token_amount * fee_numerator / fee_denominator`, rounded up.
///
/// The quotient is computed as `(product + denominator - 1) / denominator`, so
/// the call also fails when that sum does not fit, even if the quotient would.
pub fn ceil_div(token_amount: u128, fee_numerator: u128, fee_denominator: u128) -> (result:
    Option<u128>)
    ensures
        result == spec_ceil_div(token_amount, fee_numerator, fee_denominator),
{
    let product = token_amount.checked_mul(fee_numerator)?;
    let raised = product.checked_add(fee_denominator)?;
    let numerator = raised.checked_sub(1)?;
    proof {
        if fee_denominator > 0 {
            lemma_div_ceil_by_rounding_up(product as int, fee_denominator as int);
            lemma_div_ceil_bounds(product as int, fee_denominator as int);
        }
    }
    numerator.checked_div(fee_denominator)
}

/// `token_amount * fee_numerator / fee_denominator`, rounded down.
pub fn floor_div(token_amount: u128, fee_numerator: u128, fee_denominator: u128) -> (result:
    Option<u128>)
    ensures
        result == spec_floor_div(token_amount, fee_numerator, fee_denominator),
{
    let product = token_amount.checked_mul(fee_numerator)?;
    proof {
        if fee_denominator > 0 {
            lemma_div_floor_bounds(product as int, fee_denominator as int);
        }
    }
    product.checked_div(fee_denominator)
}

impl Fees {
    /// The trade fee on `amount`: `ceil(amount * rate / 1_000_000)`.
    pub open spec fn spec_trading_fee(amount: u128, trade_fee_rate: u64) -> Option<u128> {
        if amount * trade_fee_rate + FEE_RATE_DENOMINATOR_VALUE <= u128::MAX {
            Some(div_ceil(amount * trade_fee_rate, FEE_RATE_DENOMINATOR_VALUE as int) as u128)
        } else {
            None
        }
    }

    /// The protocol's share of a trade fee:
    /// `floor(amount * rate / 1_000_000)`.
    pub open spec fn spec_protocol_fee(amount: u128, protocol_fee_rate: u64) -> Option<u128> {
        if amount * protocol_fee_rate <= u128::MAX {
            Some(div_floor(amount * protocol_fee_rate, FEE_RATE_DENOMINATOR_VALUE as int) as u128)
        } else {
            None
        }
    }

    /// The fund's share of a trade fee: `floor(amount * rate / 1_000_000)`.
    pub open spec fn spec_fund_fee(amount: u128, fund_fee_rate: u64) -> Option<u128> {
        if amount * fund_fee_rate <= u128::MAX {
            Some(div_floor(amount * fund_fee_rate, FEE_RATE_DENOMINATOR_VALUE as int) as u128)
        } else {
            None
        }
    }

    /// The gross amount whose remainder after the trade fee is at least
    /// `post_fee_amount`: the amount itself at rate 0, else
    /// `ceil(post_fee_amount * 1_000_000 / (1_000_000 - rate))`. There is none
    /// at a rate of 100% or more.
    pub open spec fn spec_calculate_pre_fee_amount(post_fee_amount: u128, trade_fee_rate: u64)
        -> Option<u128> {
        if trade_fee_rate == 0 {
            Some(post_fee_amount)
        } else if trade_fee_rate < FEE_RATE_DENOMINATOR_VALUE && post_fee_amount
            * FEE_RATE_DENOMINATOR_VALUE + (FEE_RATE_DENOMINATOR_VALUE - trade_fee_rate)
            <= u128::MAX {
            Some(
                div_ceil(
                    post_fee_amount * FEE_RATE_DENOMINATOR_VALUE,
                    FEE_RATE_DENOMINATOR_VALUE - trade_fee_rate,
                ) as u128,
            )
        } else {
            None
        }
    }

    /// The trade fee withheld from `amount`, rounded up.
    pub fn trading_fee(amount: u128, trade_fee_rate: u64) -> (result: Option<u128>)
        ensures
            result == Self::spec_trading_fee(amount, trade_fee_rate),
    {
        ceil_div(amount, u128::from(trade_fee_rate), u128::from(FEE_RATE_DENOMINATOR_VALUE))
    }

    /// The protocol's share of the trade fee `amount`, rounded down.
    pub fn protocol_fee(amount: u128, protocol_fee_rate: u64) -> (result: Option<u128>)
        ensures
            result == Self::spec_protocol_fee(amount, protocol_fee_rate),
    {
        floor_div(amount, u128::from(protocol_fee_rate), u128::from(FEE_RATE_DENOMINATOR_VALUE))
    }

    /// The fund's share of the trade fee `amount`, rounded down.
    pub fn fund_fee(amount: u128, fund_fee_rate: u64) -> (result: Option<u128>)
        ensures
            result == Self::spec_fund_fee(amount, fund_fee_rate),
    {
        floor_div(amount, u128::from(fund_fee_rate), u128::from(FEE_RATE_DENOMINATOR_VALUE))
    }

    /// Inverts the trade fee: the gross amount a payer must supply so that
    /// `post_fee_amount` is left once the fee is withheld.
    pub fn calculate_pre_fee_amount(post_fee_amount: u128, trade_fee_rate: u64) -> (result:
        Option<u128>)
        ensures
            result == Self::spec_calculate_pre_fee_amount(post_fee_amount, trade_fee_rate),
            trade_fee_rate >= FEE_RATE_DENOMINATOR_VALUE ==> result is None,
    {
        if trade_fee_rate == 0 {
            Some(post_fee_amount)
        } else {
            let numerator = post_fee_amount.checked_mul(u128::from(FEE_RATE_DENOMINATOR_VALUE))?;
            let denominator = u128::from(FEE_RATE_DENOMINATOR_VALUE).checked_sub(
                u128::from(trade_fee_rate),
            )?;
            let raised = numerator.checked_add(denominator)?;
            let rounded = raised.checked_sub(1)?;
            proof {
                if denominator > 0 {
                    lemma_div_ceil_by_rounding_up(numerator as int, denominator as int);
                    lemma_div_ceil_bounds(numerator as int, denominator as int);
                }
            }
            rounded.checked_div(denominator)
        }
    }
}

/// With a rate of at most the whole, the trade fee is at most the amount it
/// is taken from.
pub proof fn lemma_trading_fee_within_amount(amount: u128, trade_fee_rate: u64)
    requires
        trade_fee_rate <= FEE_RATE_DENOMINATOR_VALUE,
    ensures
        Fees::spec_trading_fee(amount, trade_fee_rate) matches Some(fee) ==> fee <= amount,
        div_ceil(amount * trade_fee_rate, FEE_RATE_DENOMINATOR_VALUE as int) <= amount,
{
    let d = FEE_RATE_DENOMINATOR_VALUE as int;
    let fee = div_ceil(amount * trade_fee_rate, d);
    lemma_div_ceil_bounds(amount * trade_fee_rate, d);
    assert(fee <= amount) by (nonlinear_arith)
        requires
            (fee - 1) * d < amount * trade_fee_rate,
            0 <= trade_fee_rate <= d,
            d > 0,
            amount >= 0,
    ;
}

/// The protocol fee and the fund fee are carved out of the trade fee: when
/// their rates together are at most the whole, so are the two fees together
/// at most the trade fee they are taken from. Whatever the rates, the two fees
/// together are at most `floor(trade_fee * (protocol_rate + fund_rate) /
/// 1_000_000)`.
///
/// Two rates that are each at most the whole are not enough: at a rate of
/// the whole each, either fee alone is the trade fee.
pub proof fn lemma_fee_shares_within_trade_fee(
    trade_fee: u128,
    protocol_fee_rate: u64,
    fund_fee_rate: u64,
)
    ensures
        div_floor(trade_fee * protocol_fee_rate, FEE_RATE_DENOMINATOR_VALUE as int) + div_floor(
            trade_fee * fund_fee_rate,
            FEE_RATE_DENOMINATOR_VALUE as int,
        ) <= div_floor(
            trade_fee * (protocol_fee_rate + fund_fee_rate),
            FEE_RATE_DENOMINATOR_VALUE as int,
        ),
        protocol_fee_rate + fund_fee_rate <= FEE_RATE_DENOMINATOR_VALUE ==> (
        Fees::spec_protocol_fee(trade_fee, protocol_fee_rate) matches Some(protocol_fee) ==> (
        Fees::spec_fund_fee(trade_fee, fund_fee_rate) matches Some(fund_fee) ==> protocol_fee
            + fund_fee <= trade_fee)),
{
    let d = FEE_RATE_DENOMINATOR_VALUE as int;
    let p = div_floor(trade_fee * protocol_fee_rate, d);
    let f = div_floor(trade_fee * fund_fee_rate, d);
    let both = div_floor(trade_fee * (protocol_fee_rate + fund_fee_rate), d);
    lemma_div_floor_bounds(trade_fee * protocol_fee_rate, d);
    lemma_div_floor_bounds(trade_fee * fund_fee_rate, d);
    lemma_div_floor_bounds(trade_fee * (protocol_fee_rate + fund_fee_rate), d);
    assert(trade_fee * protocol_fee_rate >= 0 && trade_fee * fund_fee_rate >= 0)
        by (nonlinear_arith);
    lemma_div_floor_le_dividend(trade_fee * protocol_fee_rate, d);
    lemma_div_floor_le_dividend(trade_fee * fund_fee_rate, d);
    assert(trade_fee * (protocol_fee_rate + fund_fee_rate) == trade_fee * protocol_fee_rate
        + trade_fee * fund_fee_rate) by (nonlinear_arith);
    assert(p + f <= both) by (nonlinear_arith)
        requires
            d > 0,
            p * d + f * d <= trade_fee * (protocol_fee_rate + fund_fee_rate),
            trade_fee * (protocol_fee_rate + fund_fee_rate) < (both + 1) * d,
    ;
    if protocol_fee_rate + fund_fee_rate <= FEE_RATE_DENOMINATOR_VALUE {
        assert(both <= trade_fee) by (nonlinear_arith)
            requires
                d > 0,
                both * d <= trade_fee * (protocol_fee_rate + fund_fee_rate),
                0 <= protocol_fee_rate + fund_fee_rate <= d,
                trade_fee >= 0,
        ;
    }
}

/// [`Fees::calculate_pre_fee_amount`] inverts the trade fee exactly: the trade
/// fee on the gross amount it gives is the gross amount less the net amount,
/// so that what is left after the fee is the net amount itself. No smaller
/// gross amount leaves as much: one token less would leave less than the net
/// amount.
pub proof fn lemma_pre_fee_amount_inverts_trading_fee(post_fee_amount: u128, trade_fee_rate: u64)
    ensures
        Fees::spec_calculate_pre_fee_amount(post_fee_amount, trade_fee_rate) matches Some(gross)
            ==> {
            &&& gross >= post_fee_amount
            &&& gross - div_ceil(gross * trade_fee_rate, FEE_RATE_DENOMINATOR_VALUE as int)
                == post_fee_amount
            &&& gross > 0 ==> (gross - 1) - div_ceil(
                (gross - 1) * trade_fee_rate,
                FEE_RATE_DENOMINATOR_VALUE as int,
            ) < post_fee_amount
        },
{
    let d = FEE_RATE_DENOMINATOR_VALUE as int;
    let r = trade_fee_rate as int;
    let net = post_fee_amount as int;
    if let Some(gross) = Fees::spec_calculate_pre_fee_amount(post_fee_amount, trade_fee_rate) {
        if trade_fee_rate == 0 {
            assert(gross * r == 0 && (gross - 1) * r == 0) by (nonlinear_arith)
                requires
                    r == 0,
            ;
        } else {
            let g = div_ceil(net * d, d - r);
            lemma_div_ceil_bounds(net * d, d - r);
            lemma_div_ceil_le_dividend(net * d, d - r);
            assert(g == gross);
            // g is the least integer with g * (d - r) >= net * d.
            assert(g >= net) by (nonlinear_arith)
                requires
                    g * (d - r) >= net * d,
                    0 < r < d,
                    net >= 0,
                    g >= 0,
            ;
            lemma_div_ceil_bounds(g * r, d);
            let fee = div_ceil(g * r, d);
            // fee is the least integer with fee * d >= g * r. So is g - net:
            // (g - net) * d >= g * r > (g - net - 1) * d.
            assert(fee <= g - net) by (nonlinear_arith)
                requires
                    (fee - 1) * d < g * r,
                    g * (d - r) >= net * d,
                    d > 0,
            ;
            assert(fee >= g - net) by (nonlinear_arith)
                requires
                    fee * d >= g * r,
                    (g - 1) * (d - r) < net * d,
                    0 < r < d,
            ;
            if g > 0 {
                lemma_div_ceil_bounds((g - 1) * r, d);
                let below = div_ceil((g - 1) * r, d);
                assert((g - 1) - below < net) by (nonlinear_arith)
                    requires
                        (g - 1) * r <= below * d,
                        (g - 1) * (d - r) < net * d,
                        d > 0,
                ;
            }
        }
    }
}

} // verus!
