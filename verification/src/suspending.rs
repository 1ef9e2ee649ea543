//! The handle for callers whose transport suspends the task while a
//! transaction is in flight.

use vstd::prelude::*;
use crate::init::init_next;
use crate::init::init_step;
use crate::init::InitState;
use crate::multi_touch::multi_touch_next;
use crate::multi_touch::multi_touch_step;
use crate::multi_touch::multi_touch_view;
use crate::multi_touch::MultiTouchState;
use crate::point::Point;
use crate::registers::GT911_I2C_ADDR_BA;
use crate::registers::SCRATCH_LEN;
use crate::step::Step;
use crate::touch::touch_next;
use crate::touch::touch_step;
use crate::touch::TouchState;
use crate::touch_points::MAX_NUM_TOUCHPOINTS;

verus! {

/// A GT911 on a bus that suspends the calling task. The handle holds the
/// bus address of the device and nothing else: every operation reads the
/// device anew. The protocol is that of `Gt911Blocking`, step for step; the
/// two differ in how the caller waits for a transaction.
#[derive(Debug, Clone, Copy)]
pub struct Gt911 {
    i2c_addr: u8,
}

impl View for Gt911 {
    type V = u8;

    /// The bus address of the device.
    closed spec fn view(&self) -> u8 {
        self.i2c_addr
    }
}

impl Default for Gt911 {
    /// A handle for the device at its usual address, 0x5D.
    fn default() -> (touch: Self)
        ensures
            touch@ == GT911_I2C_ADDR_BA,
    {
        Gt911 { i2c_addr: GT911_I2C_ADDR_BA }
    }
}

impl Gt911 {
    /// A handle for the device at `i2c_addr`.
    pub fn new(i2c_addr: u8) -> (touch: Self)
        ensures
            touch@ == i2c_addr,
    {
        Gt911 { i2c_addr }
    }

    /// The bus address of the device.
    pub fn i2c_addr(&self) -> (i2c_addr: u8)
        ensures
            i2c_addr == self@,
    {
        self.i2c_addr
    }

    /// Advances the start-up: enter normal mode, require the identity
    /// `"911\0"`, clear the status register. To be run once before the first
    /// poll; running it again does no harm.
    pub fn init<E>(
        &self,
        state: InitState,
        outcome: Result<(), E>,
        scratch: &[u8; SCRATCH_LEN],
    ) -> (step: Step<InitState, (), E>)
        ensures
            step == init_next(self@, state, outcome, scratch@),
    {
        init_step(self.i2c_addr, state, outcome, scratch)
    }

    /// Advances a single-touch poll. The poll returns `Some` point for a
    /// press or a move, `None` for a release, and `NotReady` when the device
    /// has nothing new.
    pub fn get_touch<E>(
        &self,
        state: TouchState,
        outcome: Result<(), E>,
        scratch: &[u8; SCRATCH_LEN],
    ) -> (step: Step<TouchState, Option<Point>, E>)
        ensures
            step == touch_next(self@, state, outcome, scratch@),
    {
        touch_step(self.i2c_addr, state, outcome, scratch)
    }

    /// Advances a multi-touch poll. The poll returns up to five points for a
    /// press or a move, none for a release, and `NotReady` when the device
    /// has nothing new.
    pub fn get_multi_touch<E>(
        &self,
        state: MultiTouchState,
        outcome: Result<(), E>,
        scratch: &[u8; SCRATCH_LEN],
    ) -> (step: Step<MultiTouchState, heapless::Vec<Point, MAX_NUM_TOUCHPOINTS>, E>)
        ensures
            multi_touch_view(step) == multi_touch_next(self@, state@, outcome, scratch@),
    {
        multi_touch_step(self.i2c_addr, state, outcome, scratch)
    }
}

} // verus!
