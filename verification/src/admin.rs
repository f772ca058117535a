//! Bookkeeping for the fund fees that swaps accrue, one balance per token.

use vstd::prelude::*;

verus! {

/// What a collection of accrued fund fees pays out and what it leaves.
#[derive(Clone, Copy, Debug, PartialEq, Eq, Structural)]
pub struct FundFeeCollection {
    /// Amount of token 0 to pay out.
    pub amount_0: u64,
    /// Amount of token 1 to pay out.
    pub amount_1: u64,
    /// Fund fees of token 0 that stay accrued.
    pub fund_fees_token_0: u64,
    /// Fund fees of token 1 that stay accrued.
    pub fund_fees_token_1: u64,
}

/// The smaller of two amounts.
pub open spec fn spec_min(a: u64, b: u64) -> u64 {
    if a <= b {
        a
    } else {
        b
    }
}

/// Settles a request to collect fund fees against what has accrued: of each
/// token the amount requested is paid, or all that has accrued if that is
/// less, and the rest stays accrued.
pub fn collect_fund_fee(
    amount_0_requested: u64,
    amount_1_requested: u64,
    fund_fees_token_0: u64,
    fund_fees_token_1: u64,
) -> (collection: FundFeeCollection)
    ensures
        collection.amount_0 == spec_min(amount_0_requested, fund_fees_token_0),
        collection.amount_1 == spec_min(amount_1_requested, fund_fees_token_1),
        collection.amount_0 + collection.fund_fees_token_0 == fund_fees_token_0,
        collection.amount_1 + collection.fund_fees_token_1 == fund_fees_token_1,
{
    let amount_0 = amount_0_requested.min(fund_fees_token_0);
    let amount_1 = amount_1_requested.min(fund_fees_token_1);
    FundFeeCollection {
        amount_0,
        amount_1,
        fund_fees_token_0: fund_fees_token_0 - amount_0,
        fund_fees_token_1: fund_fees_token_1 - amount_1,
    }
}

} // verus!
