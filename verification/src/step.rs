//! What an operation answers each time it is advanced.

use vstd::prelude::*;
use crate::error::Error;
use crate::registers::Transaction;

verus! {

/// The answer of an operation to the outcome of its last bus transaction.
///
/// An operation is advanced first from its `Start` state with the outcome
/// `Ok(())`, and after that with the state it handed out and the outcome of
/// the transaction it asked for, until it answers anything but `Issue`.
#[derive(Debug)]
pub enum Step<S, T, E> {
    /// Perform `transaction`, then advance again from `next`.
    Issue { next: S, transaction: Transaction },
    /// The operation is over and this is what it returns.
    Done(Result<T, Error<E>>),
    /// The device broke the protocol: it claims more touch points than it
    /// can report. Nothing more is sent and the operation has no result.
    Fault,
}

} // verus!
