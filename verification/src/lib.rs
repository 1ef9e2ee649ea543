//! Register protocol of the Goodix GT911 capacitive touch controller.
//!
//! The crate holds the protocol and performs no bus traffic itself. Each of
//! the three operations (start-up, single-touch poll, multi-touch poll) is a
//! small state machine. Advanced from its `Start` state with `Ok(())`, it
//! names the first bus transaction; the caller performs it on whatever
//! transport it owns, blocking or suspending, and advances the operation
//! again with the state it was handed, the outcome, and the scratch buffer
//! that reads are made into. The operation answers with the next transaction
//! or with its result.
//!
//! What a whole operation sends and returns, given what the bus answers, is
//! stated and proved in the module `run`.

pub mod blocking;
pub mod error;
pub mod init;
pub mod multi_touch;
pub mod point;
pub mod registers;
pub mod run;
pub mod status;
pub mod step;
pub mod suspending;
pub mod touch;
pub mod touch_points;

pub use blocking::Gt911Blocking;
pub use error::Error;
pub use init::InitState;
pub use multi_touch::MultiTouchState;
pub use point::Point;
pub use registers::Transaction;
pub use step::Step;
pub use suspending::Gt911;
pub use touch::TouchState;
