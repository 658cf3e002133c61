//! Static gas budgets of the remote calls and continuations.
//!
//! Each continuation is given, when it is scheduled, enough gas for its own
//! work and for everything that it schedules in turn; the sums below are that
//! accounting.

use vstd::prelude::*;

verus! {

/// Gas for `ft_transfer_call` towards the exchange.
pub const FT_TRANSFER_CALL_REF_GAS: u64 = 86_000_000_000_000;

/// Gas for `ft_transfer_call` towards the destination of a swap-out.
pub const FT_TRANSFER_CALL_MOS_GAS: u64 = 35_000_000_000_000;

/// Gas for `ft_transfer`.
pub const FT_TRANSFER_GAS: u64 = 4_000_000_000_000;

/// Gas for `ft_balance_of`.
pub const FT_BALANCE_OF_GAS: u64 = 4_000_000_000_000;

/// Gas for `near_withdraw` on the wrapped-native token.
pub const NEAR_WITHDRAW_GAS: u64 = 4_000_000_000_000;

/// Gas for the continuation that hands a value back.
pub const CALLBACK_RETURN_VALUE_GAS: u64 = 3_000_000_000_000;

/// Gas for the stage that checks the amount used by the exchange, without the
/// calls that it schedules.
pub const CALLBACK_GET_AMOUNT_OUT_GAS: u64 = 10_000_000_000_000;

/// Gas for the stage that checks the final delivery, with the transfer to the
/// controller that it may issue.
pub const CALLBACK_CHECK_TRANSFER_GAS: u64 = 8_000_000_000_000 + FT_TRANSFER_GAS;

/// Gas for the delivery stage in swap-in mode, with what it schedules.
pub const CALLBACK_TRANSFER_TO_TARGET_ACCOUNT_SWAP_IN_GAS: u64 = 10_000_000_000_000
    + NEAR_WITHDRAW_GAS + CALLBACK_CHECK_TRANSFER_GAS;

/// Gas for the delivery stage in swap-out mode, with what it schedules.
pub const CALLBACK_TRANSFER_TO_TARGET_ACCOUNT_SWAP_OUT_GAS: u64 = 10_000_000_000_000
    + FT_TRANSFER_CALL_MOS_GAS + CALLBACK_RETURN_VALUE_GAS;

/// Gas given to the delivery stage: swap-in when a destination token is named.
pub open spec fn spec_transfer_to_target_gas(swap_in: bool) -> u64 {
    if swap_in {
        CALLBACK_TRANSFER_TO_TARGET_ACCOUNT_SWAP_IN_GAS
    } else {
        CALLBACK_TRANSFER_TO_TARGET_ACCOUNT_SWAP_OUT_GAS
    }
}

/// Gas given to the stage that checks the amount used: its own share, the
/// balance query that it issues and the delivery stage that it schedules.
pub open spec fn spec_get_amount_out_gas(swap_in: bool) -> int {
    CALLBACK_GET_AMOUNT_OUT_GAS + FT_BALANCE_OF_GAS + spec_transfer_to_target_gas(swap_in)
}

/// The gas budget of the delivery stage.
pub fn transfer_to_target_gas(swap_in: bool) -> (r: u64)
    ensures
        r == spec_transfer_to_target_gas(swap_in),
{
    if swap_in {
        CALLBACK_TRANSFER_TO_TARGET_ACCOUNT_SWAP_IN_GAS
    } else {
        CALLBACK_TRANSFER_TO_TARGET_ACCOUNT_SWAP_OUT_GAS
    }
}

/// The gas budget of the stage that checks the amount used by the exchange.
pub fn get_amount_out_gas(swap_in: bool) -> (r: u64)
    ensures
        r == spec_get_amount_out_gas(swap_in),
{
    CALLBACK_GET_AMOUNT_OUT_GAS + FT_BALANCE_OF_GAS + transfer_to_target_gas(swap_in)
}

} // verus!
