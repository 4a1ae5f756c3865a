//! A cooperative task runtime together with a simulated radio peripheral.
//!
//! The radio speaks a state-machine-constrained command/response protocol;
//! request futures bridge the peripheral into the scheduler, and a history
//! wrapper records every command and response that changed device state.

pub mod channel;
pub mod future;
pub mod karma;
pub mod radio;
pub mod sched;
pub mod timer;
