//! The choices that the donation-pot tool makes from its arguments.

use vstd::prelude::*;

verus! {

/// The fee for creating a pot, in the smallest unit of the fee token.
pub const FEE_AMOUNT: u64 = 50000000000000000;

/// The alternative fee for creating a pot.
pub const FEE_AMOUNT_2: u64 = 300000000000000000;

/// How many times the fee a donation is worth.
pub const DONATION_FEES: u64 = 3;

/// Picks between two candidates: the second when `wanted` is 2, the first on
/// any other value.
pub fn selected<T>(wanted: u64, first: T, second: T) -> (choice: T)
    ensures
        choice == (if wanted == 2 {
            second
        } else {
            first
        }),
{
    if wanted == 2 {
        second
    } else {
        first
    }
}

/// The identifier of the pot or project that a command works on: 2 when the
/// second one is wanted, 1 otherwise.
pub fn selected_id(wanted: u64) -> (id: u32)
    ensures
        id == (if wanted == 2 {
            2u32
        } else {
            1u32
        }),
{
    selected(wanted, 1, 2)
}

/// The fee that a change of fees sets: the standard fee for type 1, the
/// alternative fee for any other type.
pub fn fee_for(fee_type: u64) -> (fee: u64)
    ensures
        fee == (if fee_type == 1 {
            FEE_AMOUNT
        } else {
            FEE_AMOUNT_2
        }),
{
    if fee_type == 1 {
        FEE_AMOUNT
    } else {
        FEE_AMOUNT_2
    }
}

/// The amount of every donation: three times the standard fee.
pub fn donation_amount() -> (amount: u64)
    ensures
        amount == DONATION_FEES * FEE_AMOUNT,
        amount == 150000000000000000,
{
    DONATION_FEES * FEE_AMOUNT
}

} // verus!
