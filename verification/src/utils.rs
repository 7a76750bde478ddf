//! Small helpers around the host's storage-cost accounting.

use vstd::prelude::*;

verus! {

/// How much an account's balance falls short of the required minimum:
/// the amount a payer must top up, or zero when the account already holds
/// enough.  The host computes the minimum from the account's size and
/// performs the transfer.
pub fn rent_top_up_amount(required_minimum: u64, current_balance: u64) -> (r: u64)
    ensures
        r == if current_balance < required_minimum {
            required_minimum - current_balance
        } else {
            0
        },
{
    if current_balance < required_minimum {
        required_minimum - current_balance
    } else {
        0
    }
}

} // verus!
