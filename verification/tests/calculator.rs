use cp_swap::admin::{collect_fund_fee, FundFeeCollection};
use cp_swap::calculator::{
    map_zero_to_none, ok_or_calculation_failure, CurveCalculator, CurveError, RoundDirection, SwapResult, TradeDirection,
    TradingTokenResult,
};
use cp_swap::constant_product::ConstantProductCurve;
use cp_swap::fees::Fees;

#[test]
fn map_zero_to_none_values() {
    assert_eq!(map_zero_to_none(0), None);
    assert_eq!(map_zero_to_none(1), Some(1));
    assert_eq!(map_zero_to_none(u128::MAX), Some(u128::MAX));
}

#[test]
fn opposite_swaps_the_direction() {
    assert_eq!(TradeDirection::ZeroForOne.opposite(), TradeDirection::OneForZero);
    assert_eq!(TradeDirection::OneForZero.opposite(), TradeDirection::ZeroForOne);
    for direction in [TradeDirection::ZeroForOne, TradeDirection::OneForZero] {
        assert_eq!(direction.opposite().opposite(), direction);
        assert_ne!(direction.opposite(), direction);
    }
}

#[test]
fn validate_supply_rejects_an_empty_reserve() {
    assert_eq!(CurveCalculator::validate_supply(0, 0), Err(CurveError::EmptySupply));
    assert_eq!(CurveCalculator::validate_supply(0, 7), Err(CurveError::EmptySupply));
    assert_eq!(CurveCalculator::validate_supply(7, 0), Err(CurveError::EmptySupply));
    assert_eq!(CurveCalculator::validate_supply(1, 1), Ok(()));
    assert_eq!(CurveCalculator::validate_supply(u64::MAX, 1), Ok(()));
}

#[test]
fn absent_result_is_a_calculation_failure() {
    assert_eq!(ok_or_calculation_failure(Some(5u128)), Ok(5));
    assert_eq!(ok_or_calculation_failure::<u128>(None), Err(CurveError::CalculationFailure));
    assert_eq!(
        ok_or_calculation_failure(CurveCalculator::swap_base_output(5, 5, 5, 0, 0, 0)),
        Err(CurveError::CalculationFailure)
    );
    assert_eq!(
        ok_or_calculation_failure(Fees::calculate_pre_fee_amount(1, 1_000_000)),
        Err(CurveError::CalculationFailure)
    );
}

#[test]
fn swap_base_input_exact_values() {
    assert_eq!(
        CurveCalculator::swap_base_input(
            1_000_000,
            4_000_000,
            70_000_000_000,
            2500,
            120_000,
            40_000
        ),
        Some(SwapResult {
            new_swap_source_amount: 5_000_000,
            new_swap_destination_amount: 56_028_014_008,
            source_amount_swapped: 1_000_000,
            destination_amount_swapped: 13_971_985_992,
            trade_fee: 2500,
            protocol_fee: 300,
            fund_fee: 100,
        })
    );
    assert_eq!(
        CurveCalculator::swap_base_input(100_000, 2_000_000, 3_000_000, 2500, 120_000, 40_000),
        Some(SwapResult {
            new_swap_source_amount: 2_100_000,
            new_swap_destination_amount: 2_857_484,
            source_amount_swapped: 100_000,
            destination_amount_swapped: 142_516,
            trade_fee: 250,
            protocol_fee: 30,
            fund_fee: 10,
        })
    );
}

#[test]
fn swap_base_input_without_fee_follows_the_curve() {
    let swap = CurveCalculator::swap_base_input(10, 4_000_000, 70_000_000_000, 0, 0, 0).unwrap();
    assert_eq!(swap.destination_amount_swapped, 174_999);
    assert_eq!(swap.trade_fee, 0);
    assert_eq!(swap.protocol_fee, 0);
    assert_eq!(swap.fund_fee, 0);
    assert_eq!(swap.new_swap_source_amount, 4_000_010);
    assert_eq!(swap.new_swap_destination_amount, 70_000_000_000 - 174_999);
}

#[test]
fn swap_base_input_credits_the_gross_amount() {
    // The fee is withheld from what is swapped, yet stays in the pool.
    let swap =
        CurveCalculator::swap_base_input(100_000, 2_000_000, 3_000_000, 2500, 120_000, 40_000)
            .unwrap();
    assert_eq!(swap.new_swap_source_amount, 2_000_000 + 100_000);
    assert_eq!(
        Some(swap.destination_amount_swapped),
        ConstantProductCurve::swap_base_input_without_fees(100_000 - 250, 2_000_000, 3_000_000)
    );
}

#[test]
fn swap_base_input_failures() {
    // The fee product does not fit.
    assert_eq!(CurveCalculator::swap_base_input(u128::MAX, 1, 1, 2500, 0, 0), None);
    // A rate above the whole takes more than the amount.
    assert_eq!(CurveCalculator::swap_base_input(10, 5, 5, 1_500_000, 0, 0), None);
    // The whole amount is fee and the source reserve is empty.
    assert_eq!(CurveCalculator::swap_base_input(10, 0, 5, 1_000_000, 0, 0), None);
    // The new source reserve does not fit.
    assert_eq!(CurveCalculator::swap_base_input(u128::MAX / 2 + 1, u128::MAX / 2 + 1, 1, 0, 0, 0), None);
    // A share of the fee does not fit.
    assert_eq!(
        CurveCalculator::swap_base_input(1 << 100, 1, 1, 1_000_000, u64::MAX, 0),
        None
    );
    assert_eq!(
        CurveCalculator::swap_base_input(1 << 100, 1, 1, 1_000_000, 0, u64::MAX),
        None
    );
    // The curve's product does not fit.
    assert_eq!(CurveCalculator::swap_base_input(1 << 64, 1, 1 << 64, 0, 0, 0), None);
    // The largest swap into a pool of one and one still succeeds.
    assert_eq!(
        CurveCalculator::swap_base_input(u128::MAX / 2, 1, 1, 0, 0, 0),
        Some(SwapResult {
            new_swap_source_amount: u128::MAX / 2 + 1,
            new_swap_destination_amount: 1,
            source_amount_swapped: u128::MAX / 2,
            destination_amount_swapped: 0,
            trade_fee: 0,
            protocol_fee: 0,
            fund_fee: 0,
        })
    );
}

#[test]
fn swap_base_output_exact_values() {
    assert_eq!(
        CurveCalculator::swap_base_output(
            174_999,
            4_000_000,
            70_000_000_000,
            2500,
            120_000,
            40_000
        ),
        Some(SwapResult {
            new_swap_source_amount: 4_000_011,
            new_swap_destination_amount: 69_999_825_001,
            source_amount_swapped: 11,
            destination_amount_swapped: 174_999,
            trade_fee: 1,
            protocol_fee: 0,
            fund_fee: 0,
        })
    );
    assert_eq!(
        CurveCalculator::swap_base_output(100_000, 2_000_000, 3_000_000, 2500, 120_000, 40_000),
        Some(SwapResult {
            new_swap_source_amount: 2_069_139,
            new_swap_destination_amount: 2_900_000,
            source_amount_swapped: 69_139,
            destination_amount_swapped: 100_000,
            trade_fee: 173,
            protocol_fee: 20,
            fund_fee: 6,
        })
    );
}

#[test]
fn swap_base_output_failures() {
    // The pool cannot pay out all it holds, nor more.
    assert_eq!(CurveCalculator::swap_base_output(5, 5, 5, 2500, 0, 0), None);
    assert_eq!(CurveCalculator::swap_base_output(6, 5, 5, 2500, 0, 0), None);
    // No gross amount leaves anything at a fee of the whole.
    assert_eq!(CurveCalculator::swap_base_output(1, 5, 5, 1_000_000, 0, 0), None);
    assert_eq!(CurveCalculator::swap_base_output(0, 5, 5, 1_000_000, 0, 0), None);
    assert_eq!(CurveCalculator::swap_base_output(1, 5, 5, 1_000_001, 0, 0), None);
    // The curve's product does not fit.
    assert_eq!(CurveCalculator::swap_base_output(2, u128::MAX, 3, 0, 0, 0), None);
    // The new source reserve does not fit.
    assert_eq!(CurveCalculator::swap_base_output(1, u128::MAX, 2, 0, 0, 0), None);
    // Nothing out costs nothing.
    assert_eq!(
        CurveCalculator::swap_base_output(0, 5, 5, 2500, 120_000, 40_000),
        Some(SwapResult {
            new_swap_source_amount: 5,
            new_swap_destination_amount: 5,
            source_amount_swapped: 0,
            destination_amount_swapped: 0,
            trade_fee: 0,
            protocol_fee: 0,
            fund_fee: 0,
        })
    );
}

fn sample_reserves() -> Vec<u128> {
    vec![1, 2, 7, 1_000, 65_537, 4_000_000, 70_000_000_000, 1 << 40, u64::MAX as u128]
}

#[test]
fn swaps_never_lower_the_product_of_the_reserves() {
    for &amount in sample_reserves().iter() {
        for &reserve_in in sample_reserves().iter() {
            for &reserve_out in sample_reserves().iter() {
                for rate in [0u64, 1, 2500, 10_000, 999_999] {
                    let sold = CurveCalculator::swap_base_input(
                        amount,
                        reserve_in,
                        reserve_out,
                        rate,
                        120_000,
                        40_000,
                    )
                    .unwrap();
                    assert!(
                        sold.new_swap_source_amount.checked_mul(sold.new_swap_destination_amount)
                            .map_or(true, |k| k >= reserve_in * reserve_out)
                    );
                    assert!(sold.protocol_fee + sold.fund_fee <= sold.trade_fee);
                    assert!(sold.trade_fee <= amount);
                    if let Some(bought) = CurveCalculator::swap_base_output(
                        amount,
                        reserve_in,
                        reserve_out,
                        rate,
                        120_000,
                        40_000,
                    ) {
                        assert!(amount < reserve_out);
                        assert!(
                            bought
                                .new_swap_source_amount
                                .checked_mul(bought.new_swap_destination_amount)
                                .map_or(true, |k| k >= reserve_in * reserve_out)
                        );
                        assert!(bought.protocol_fee + bought.fund_fee <= bought.trade_fee);
                    }
                }
            }
        }
    }
}

#[test]
fn exact_input_succeeds_on_64_bit_reserves() {
    for &amount in [0u128, 1, u64::MAX as u128].iter() {
        for &reserve_in in [1u128, u64::MAX as u128].iter() {
            for &reserve_out in [0u128, 1, u64::MAX as u128].iter() {
                for rate in [0u64, 2500, 1_000_000] {
                    assert!(CurveCalculator::swap_base_input(
                        amount,
                        reserve_in,
                        reserve_out,
                        rate,
                        u64::MAX,
                        u64::MAX
                    )
                    .is_some());
                }
            }
        }
    }
}

#[test]
fn exact_output_round_trip() {
    for &reserve_in in sample_reserves().iter() {
        for &reserve_out in sample_reserves().iter() {
            for &out in sample_reserves().iter() {
                for rate in [0u64, 1, 2500, 10_000, 999_999] {
                    let bought = match CurveCalculator::swap_base_output(
                        out,
                        reserve_in,
                        reserve_out,
                        rate,
                        120_000,
                        40_000,
                    ) {
                        Some(bought) => bought,
                        None => continue,
                    };
                    assert_eq!(bought.destination_amount_swapped, out);
                    // What reaches the curve after the fee is the curve's
                    // price for `out`, and buys at least `out`.
                    let net = bought.source_amount_swapped - bought.trade_fee;
                    assert_eq!(
                        Some(net),
                        ConstantProductCurve::swap_base_output_without_fees(
                            out,
                            reserve_in,
                            reserve_out
                        )
                    );
                    if let Some(back) =
                        ConstantProductCurve::swap_base_input_without_fees(net, reserve_in, reserve_out)
                    {
                        assert!(back >= out);
                    }
                    if let Some(sold) = CurveCalculator::swap_base_input(
                        bought.source_amount_swapped,
                        reserve_in,
                        reserve_out,
                        rate,
                        120_000,
                        40_000,
                    ) {
                        assert!(sold.destination_amount_swapped >= out);
                        assert_eq!(sold.trade_fee, bought.trade_fee);
                    }
                }
            }
        }
    }
}

#[test]
fn exact_output_round_trip_exact_values() {
    let bought =
        CurveCalculator::swap_base_output(100_000, 2_000_000, 3_000_000, 2500, 120_000, 40_000)
            .unwrap();
    assert_eq!(bought.source_amount_swapped, 69_139);
    let sold = CurveCalculator::swap_base_input(69_139, 2_000_000, 3_000_000, 2500, 120_000, 40_000)
        .unwrap();
    assert_eq!(sold.destination_amount_swapped, 100_000);
    // One token less buys less.
    let short = CurveCalculator::swap_base_input(69_138, 2_000_000, 3_000_000, 2500, 120_000, 40_000)
        .unwrap();
    assert_eq!(short.destination_amount_swapped, 99_999);
}

#[test]
fn calculator_delegates_shares_to_the_curve() {
    assert_eq!(
        CurveCalculator::lp_tokens_to_trading_tokens(5, 10, 2, 49, RoundDirection::Ceiling),
        Some(TradingTokenResult { token_0_amount: 1, token_1_amount: 25 })
    );
    assert_eq!(
        CurveCalculator::lp_tokens_to_trading_tokens(5, 10, 2, 49, RoundDirection::Floor),
        Some(TradingTokenResult { token_0_amount: 1, token_1_amount: 24 })
    );
    assert_eq!(
        CurveCalculator::lp_tokens_to_trading_tokens(0, 10, 2, 49, RoundDirection::Ceiling),
        Some(TradingTokenResult { token_0_amount: 0, token_1_amount: 0 })
    );
    assert_eq!(
        CurveCalculator::lp_tokens_to_trading_tokens(5, 0, 2, 49, RoundDirection::Floor),
        None
    );
    for shares in [0u128, 1, 5, 10, 11] {
        for direction in [RoundDirection::Ceiling, RoundDirection::Floor] {
            assert_eq!(
                CurveCalculator::lp_tokens_to_trading_tokens(shares, 10, 7, 501, direction),
                ConstantProductCurve::lp_tokens_to_trading_tokens(shares, 10, 7, 501, direction)
            );
        }
    }
}

#[test]
fn collect_fund_fee_pays_what_has_accrued_at_most() {
    assert_eq!(
        collect_fund_fee(10, 500, 100, 300),
        FundFeeCollection {
            amount_0: 10,
            amount_1: 300,
            fund_fees_token_0: 90,
            fund_fees_token_1: 0,
        }
    );
    assert_eq!(
        collect_fund_fee(u64::MAX, 0, u64::MAX, 7),
        FundFeeCollection {
            amount_0: u64::MAX,
            amount_1: 0,
            fund_fees_token_0: 0,
            fund_fees_token_1: 7,
        }
    );
    assert_eq!(
        collect_fund_fee(5, 5, 0, 0),
        FundFeeCollection { amount_0: 0, amount_1: 0, fund_fees_token_0: 0, fund_fees_token_1: 0 }
    );
}
