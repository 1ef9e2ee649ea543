//! What can end an operation early.

use vstd::prelude::*;

verus! {

/// Why an operation of the driver did not deliver.
#[derive(Debug)]
pub enum Error<E> {
    /// The identity register did not read `"911\0"`: another device
    /// answers at this address, or the bus garbles what it carries.
    UnexpectedProductId,
    /// The transport reported that a bus transaction failed.
    I2C(E),
    /// No fault: the device has no new data since the last poll. It is the
    /// usual answer between touch events and is to be ignored.
    NotReady,
}

impl<E: Clone> Clone for Error<E> {
    /// A copy of the same kind; a transport error inside is cloned.
    fn clone(&self) -> (copy: Self)
        ensures
            self is UnexpectedProductId ==> copy is UnexpectedProductId,
            self is I2C ==> copy is I2C && cloned(self->I2C_0, copy->I2C_0),
            self is NotReady ==> copy is NotReady,
    {
        match self {
            Error::UnexpectedProductId => Error::UnexpectedProductId,
            Error::I2C(e) => Error::I2C(e.clone()),
            Error::NotReady => Error::NotReady,
        }
    }
}

} // verus!
