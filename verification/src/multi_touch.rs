//! The multi-touch poll.

use vstd::prelude::*;
use crate::error::Error;
use crate::point::Point;
use crate::point::TOUCHPOINT_ENTRY_LEN;
use crate::registers::read_of;
use crate::registers::write_of;
use crate::registers::GT911_TOUCHPOINT_1_REG;
use crate::registers::GT911_TOUCHPOINT_STATUS_REG;
use crate::registers::SCRATCH_LEN;
use crate::status::get_num_touch_points;
use crate::status::num_touch_points_of;
use crate::step::Step;
use crate::touch_points::decode_points;
use crate::touch_points::empty_points;
use crate::touch_points::held_points;
use crate::touch_points::points_of;
use crate::touch_points::MAX_NUM_TOUCHPOINTS;

verus! {

/// How far a multi-touch poll has come.
#[derive(Debug)]
pub enum MultiTouchState {
    /// Nothing has been sent.
    Start,
    /// The read of the status byte is on the bus.
    StatusRequested,
    /// The read of this many touch-point records is on the bus.
    RecordsRequested(usize),
    /// The write that clears the status register is on the bus; the poll
    /// returns what this state holds once that write is through.
    ClearSent(heapless::Vec<Point, MAX_NUM_TOUCHPOINTS>),
}

/// A `MultiTouchState` with the points it holds as a sequence.
pub enum MultiTouchPhase {
    Start,
    StatusRequested,
    RecordsRequested(usize),
    ClearSent(Seq<Point>),
}

impl View for MultiTouchState {
    type V = MultiTouchPhase;

    open spec fn view(&self) -> MultiTouchPhase {
        match *self {
            MultiTouchState::Start => MultiTouchPhase::Start,
            MultiTouchState::StatusRequested => MultiTouchPhase::StatusRequested,
            MultiTouchState::RecordsRequested(count) => MultiTouchPhase::RecordsRequested(count),
            MultiTouchState::ClearSent(points) => MultiTouchPhase::ClearSent(held_points(points)),
        }
    }
}

/// A step of the multi-touch poll with the points it holds as a sequence.
pub open spec fn multi_touch_view<E>(
    step: Step<MultiTouchState, heapless::Vec<Point, MAX_NUM_TOUCHPOINTS>, E>,
) -> Step<MultiTouchPhase, Seq<Point>, E> {
    match step {
        Step::Issue { next, transaction } => Step::Issue { next: next@, transaction },
        Step::Done(Ok(points)) => Step::Done(Ok(held_points(points))),
        Step::Done(Err(e)) => Step::Done(Err(e)),
        Step::Fault => Step::Fault,
    }
}

/// The multi-touch poll as a transition function: from the state and the
/// outcome of the last transaction, with what it read in `scratch`, to the
/// next step.
///
/// Records are read only for a count of one to five, and exactly that many.
/// A status byte that claims more ends the poll in `Fault` before anything
/// else is sent.
pub open spec fn multi_touch_next<E>(
    address: u8,
    state: MultiTouchPhase,
    outcome: Result<(), E>,
    scratch: Seq<u8>,
) -> Step<MultiTouchPhase, Seq<Point>, E> {
    match outcome {
        Err(e) => Step::Done(Err(Error::I2C(e))),
        Ok(_) => match state {
            MultiTouchPhase::Start => Step::Issue {
                next: MultiTouchPhase::StatusRequested,
                transaction: read_of(address, GT911_TOUCHPOINT_STATUS_REG, 1),
            },
            MultiTouchPhase::StatusRequested => match num_touch_points_of::<E>(scratch[0]) {
                Err(e) => Step::Done(Err(e)),
                Ok(count) => if count == 0 {
                    Step::Issue {
                        next: MultiTouchPhase::ClearSent(Seq::empty()),
                        transaction: write_of(address, GT911_TOUCHPOINT_STATUS_REG, 0),
                    }
                } else if count <= MAX_NUM_TOUCHPOINTS {
                    Step::Issue {
                        next: MultiTouchPhase::RecordsRequested(count),
                        transaction: read_of(
                            address,
                            GT911_TOUCHPOINT_1_REG,
                            (TOUCHPOINT_ENTRY_LEN * count) as usize,
                        ),
                    }
                } else {
                    Step::Fault
                },
            },
            MultiTouchPhase::RecordsRequested(count) => if count <= MAX_NUM_TOUCHPOINTS {
                Step::Issue {
                    next: MultiTouchPhase::ClearSent(points_of(scratch, count as nat)),
                    transaction: write_of(address, GT911_TOUCHPOINT_STATUS_REG, 0),
                }
            } else {
                Step::Fault
            },
            MultiTouchPhase::ClearSent(points) => Step::Done(Ok(points)),
        },
    }
}

/// Advances a multi-touch poll of the device at `address`.
pub fn multi_touch_step<E>(
    address: u8,
    state: MultiTouchState,
    outcome: Result<(), E>,
    scratch: &[u8; SCRATCH_LEN],
) -> (step: Step<MultiTouchState, heapless::Vec<Point, MAX_NUM_TOUCHPOINTS>, E>)
    ensures
        multi_touch_view(step) == multi_touch_next(address, state@, outcome, scratch@),
{
    if let Err(e) = outcome {
        return Step::Done(Err(Error::I2C(e)));
    }
    match state {
        MultiTouchState::Start => Step::Issue {
            next: MultiTouchState::StatusRequested,
            transaction: crate::registers::read(address, GT911_TOUCHPOINT_STATUS_REG, 1),
        },
        MultiTouchState::StatusRequested => match get_num_touch_points(scratch[0]) {
            Err(e) => Step::Done(Err(e)),
            Ok(num_touch_points) => {
                if num_touch_points == 0 {
                    Step::Issue {
                        next: MultiTouchState::ClearSent(empty_points()),
                        transaction: crate::registers::write(address, GT911_TOUCHPOINT_STATUS_REG, 0),
                    }
                } else if num_touch_points <= MAX_NUM_TOUCHPOINTS {
                    Step::Issue {
                        next: MultiTouchState::RecordsRequested(num_touch_points),
                        transaction: crate::registers::read(
                            address,
                            GT911_TOUCHPOINT_1_REG,
                            TOUCHPOINT_ENTRY_LEN * num_touch_points,
                        ),
                    }
                } else {
                    Step::Fault
                }
            },
        },
        MultiTouchState::RecordsRequested(num_touch_points) => {
            if num_touch_points <= MAX_NUM_TOUCHPOINTS {
                let points = decode_points(scratch.as_slice(), num_touch_points);
                Step::Issue {
                    next: MultiTouchState::ClearSent(points),
                    transaction: crate::registers::write(address, GT911_TOUCHPOINT_STATUS_REG, 0),
                }
            } else {
                Step::Fault
            }
        },
        MultiTouchState::ClearSent(points) => Step::Done(Ok(points)),
    }
}

} // verus!
