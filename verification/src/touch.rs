//! The single-touch poll.

use vstd::prelude::*;
use crate::error::Error;
use crate::point::decode_point;
use crate::point::point_of;
use crate::point::Point;
use crate::point::TOUCHPOINT_ENTRY_LEN;
use crate::registers::read_of;
use crate::registers::write_of;
use crate::registers::GT911_TOUCHPOINT_1_REG;
use crate::registers::GT911_TOUCHPOINT_STATUS_REG;
use crate::registers::SCRATCH_LEN;
use crate::status::get_num_touch_points;
use crate::status::num_touch_points_of;
use crate::step::Step;

verus! {

/// How far a single-touch poll has come.
#[derive(Debug, Clone, Copy, PartialEq, Eq)]
pub enum TouchState {
    /// Nothing has been sent.
    Start,
    /// The read of the status byte is on the bus.
    StatusRequested,
    /// The read of the first touch-point record is on the bus.
    RecordRequested,
    /// The write that clears the status register is on the bus; the poll
    /// returns what this state holds once that write is through.
    ClearSent(Option<Point>),
}

/// The single-touch poll as a transition function: from the state and the
/// outcome of the last transaction, with what it read in `scratch`, to the
/// next step.
///
/// The status register is cleared after every status byte that has the ready
/// flag, and never otherwise.
pub open spec fn touch_next<E>(
    address: u8,
    state: TouchState,
    outcome: Result<(), E>,
    scratch: Seq<u8>,
) -> Step<TouchState, Option<Point>, E> {
    match outcome {
        Err(e) => Step::Done(Err(Error::I2C(e))),
        Ok(_) => match state {
            TouchState::Start => Step::Issue {
                next: TouchState::StatusRequested,
                transaction: read_of(address, GT911_TOUCHPOINT_STATUS_REG, 1),
            },
            TouchState::StatusRequested => match num_touch_points_of::<E>(scratch[0]) {
                Err(e) => Step::Done(Err(e)),
                Ok(count) => if count > 0 {
                    Step::Issue {
                        next: TouchState::RecordRequested,
                        transaction: read_of(address, GT911_TOUCHPOINT_1_REG, TOUCHPOINT_ENTRY_LEN),
                    }
                } else {
                    Step::Issue {
                        next: TouchState::ClearSent(None),
                        transaction: write_of(address, GT911_TOUCHPOINT_STATUS_REG, 0),
                    }
                },
            },
            TouchState::RecordRequested => Step::Issue {
                next: TouchState::ClearSent(Some(point_of(scratch))),
                transaction: write_of(address, GT911_TOUCHPOINT_STATUS_REG, 0),
            },
            TouchState::ClearSent(touch) => Step::Done(Ok(touch)),
        },
    }
}

/// Advances a single-touch poll of the device at `address`.
pub fn touch_step<E>(
    address: u8,
    state: TouchState,
    outcome: Result<(), E>,
    scratch: &[u8; SCRATCH_LEN],
) -> (step: Step<TouchState, Option<Point>, E>)
    ensures
        step == touch_next(address, state, outcome, scratch@),
{
    if let Err(e) = outcome {
        return Step::Done(Err(Error::I2C(e)));
    }
    match state {
        TouchState::Start => Step::Issue {
            next: TouchState::StatusRequested,
            transaction: crate::registers::read(address, GT911_TOUCHPOINT_STATUS_REG, 1),
        },
        TouchState::StatusRequested => match get_num_touch_points(scratch[0]) {
            Err(e) => Step::Done(Err(e)),
            Ok(num_touch_points) => {
                if num_touch_points > 0 {
                    Step::Issue {
                        next: TouchState::RecordRequested,
                        transaction: crate::registers::read(
                            address,
                            GT911_TOUCHPOINT_1_REG,
                            TOUCHPOINT_ENTRY_LEN,
                        ),
                    }
                } else {
                    Step::Issue {
                        next: TouchState::ClearSent(None),
                        transaction: crate::registers::write(address, GT911_TOUCHPOINT_STATUS_REG, 0),
                    }
                }
            },
        },
        TouchState::RecordRequested => {
            let point = decode_point(scratch.as_slice());
            Step::Issue {
                next: TouchState::ClearSent(Some(point)),
                transaction: crate::registers::write(address, GT911_TOUCHPOINT_STATUS_REG, 0),
            }
        },
        TouchState::ClearSent(touch) => Step::Done(Ok(touch)),
    }
}

} // verus!
