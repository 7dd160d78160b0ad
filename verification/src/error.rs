//! Why an operation was rejected.

use vstd::prelude::*;

verus! {

/// The reasons for which an operation is rejected. A rejected operation
/// changes nothing.
#[derive(Clone, Copy, Debug, PartialEq, Eq, Structural)]
pub enum Error {
    /// The caller lacks the credential or the ownership that the operation asks for.
    Unauthorized,
    /// The payment is not in the settlement currency.
    InvalidCurrency,
    /// The payment is below the price of the operation.
    InsufficientPayment,
    /// The poll's deadline has been reached.
    VotingClosed,
    /// The identity has already voted on the poll.
    AlreadyVoted,
}

} // verus!
