//! Moving funds between balances.

use vstd::prelude::*;
use crate::error::OracleError;

verus! {

/// Why `amount` cannot move from a balance `from` to a balance `to`, if it cannot.
pub open spec fn transfer_rejection(from: u64, to: u64, amount: u64) -> Option<OracleError> {
    if from < amount {
        Some(OracleError::InsufficientFunds)
    } else if to + amount > u64::MAX {
        Some(OracleError::ArithmeticOverflow)
    } else {
        None
    }
}

/// Moves `amount` from the balance `from` to the balance `to` and returns the two new
/// balances, in that order. Nothing is taken where nothing can be given.
pub fn transfer(from: u64, to: u64, amount: u64) -> (res: Result<(u64, u64), OracleError>)
    ensures
        match res {
            Ok((debited, credited)) => {
                &&& transfer_rejection(from, to, amount) is None
                &&& debited == from - amount
                &&& credited == to + amount
            },
            Err(e) => transfer_rejection(from, to, amount) == Some(e),
        },
{
    match from.checked_sub(amount) {
        None => Err(OracleError::InsufficientFunds),
        Some(debited) => match to.checked_add(amount) {
            None => Err(OracleError::ArithmeticOverflow),
            Some(credited) => Ok((debited, credited)),
        },
    }
}

} // verus!
