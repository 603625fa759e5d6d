use vstd::prelude::*;

verus! {

/// Why an operation was refused. Every error is fatal for the call that
/// raised it: nothing the call touched is changed.
#[derive(Clone, Copy, Debug, PartialEq, Eq, Structural)]
pub enum TokenError {
    /// An address in the call is not the one its seeds (and bump) derive.
    AddressMismatch,
    /// The required authority did not sign, or is not the recorded owner.
    Unauthorized,
    /// A debit exceeds the balance it is taken from.
    Underfunded,
    /// The payer cannot cover the cost of creating an account.
    InsufficientPayerFunds,
    /// The address holds something other than the expected record.
    AccountKindMismatch,
    /// The amount is zero.
    InvalidAmount,
    /// A credit would exceed the largest representable amount.
    Overflow,
}

} // verus!
