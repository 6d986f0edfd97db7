//! Failure reasons for the sale operations.

use vstd::prelude::*;

verus! {

/// Every way a sale operation can refuse to act. Each operation either fully
/// succeeds or returns one of these with no durable state change.
#[derive(Clone, Copy, Debug, PartialEq, Eq, Structural)]
pub enum CustomError {
    /// A zero value was supplied where a positive one is required.
    InvalidAmount,
    /// The buyer's settlement-currency balance is below the payment.
    NotEnoughSol,
    /// The caller is not the identity the operation requires.
    Unauthorized,
    /// A supplied account does not match the stored configuration.
    AccountMismatch,
    /// The price computation or the buyer's running total would overflow.
    ArithmeticOverflow,
}

} // verus!
