//! Start-up: enter normal mode, verify the identity, clear the status.

use vstd::prelude::*;
use crate::error::Error;
use crate::registers::read_of;
use crate::registers::write_of;
use crate::registers::GT911_COMMAND_REG;
use crate::registers::GT911_PRODUCT_ID_REG;
use crate::registers::GT911_TOUCHPOINT_STATUS_REG;
use crate::registers::SCRATCH_LEN;
use crate::status::is_product_id;
use crate::status::product_id;
use crate::step::Step;

verus! {

/// How far the start-up has come.
#[derive(Debug, Clone, Copy, PartialEq, Eq)]
pub enum InitState {
    /// Nothing has been sent.
    Start,
    /// The write that enters normal mode is on the bus.
    CommandSent,
    /// The read of the product identity is on the bus.
    IdentityRequested,
    /// The write that clears the status register is on the bus.
    ClearSent,
}

/// The start-up as a transition function: from the state and the outcome of
/// the last transaction, with what it read in `scratch`, to the next step.
pub open spec fn init_next<E>(
    address: u8,
    state: InitState,
    outcome: Result<(), E>,
    scratch: Seq<u8>,
) -> Step<InitState, (), E> {
    match outcome {
        Err(e) => Step::Done(Err(Error::I2C(e))),
        Ok(_) => match state {
            InitState::Start => Step::Issue {
                next: InitState::CommandSent,
                transaction: write_of(address, GT911_COMMAND_REG, 0),
            },
            InitState::CommandSent => Step::Issue {
                next: InitState::IdentityRequested,
                transaction: read_of(address, GT911_PRODUCT_ID_REG, 4),
            },
            InitState::IdentityRequested => if scratch.subrange(0, 4) == product_id() {
                Step::Issue {
                    next: InitState::ClearSent,
                    transaction: write_of(address, GT911_TOUCHPOINT_STATUS_REG, 0),
                }
            } else {
                Step::Done(Err(Error::UnexpectedProductId))
            },
            InitState::ClearSent => Step::Done(Ok(())),
        },
    }
}

/// Advances the start-up of the device at `address`.
pub fn init_step<E>(
    address: u8,
    state: InitState,
    outcome: Result<(), E>,
    scratch: &[u8; SCRATCH_LEN],
) -> (step: Step<InitState, (), E>)
    ensures
        step == init_next(address, state, outcome, scratch@),
{
    if let Err(e) = outcome {
        return Step::Done(Err(Error::I2C(e)));
    }
    match state {
        InitState::Start => Step::Issue {
            next: InitState::CommandSent,
            transaction: crate::registers::write(address, GT911_COMMAND_REG, 0),
        },
        InitState::CommandSent => Step::Issue {
            next: InitState::IdentityRequested,
            transaction: crate::registers::read(address, GT911_PRODUCT_ID_REG, 4),
        },
        InitState::IdentityRequested => {
            if is_product_id(scratch.as_slice()) {
                Step::Issue {
                    next: InitState::ClearSent,
                    transaction: crate::registers::write(address, GT911_TOUCHPOINT_STATUS_REG, 0),
                }
            } else {
                Step::Done(Err(Error::UnexpectedProductId))
            }
        },
        InitState::ClearSent => Step::Done(Ok(())),
    }
}

} // verus!
