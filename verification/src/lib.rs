//! Verified control core of a four-rotor aircraft.
//!
//! The crate holds the integer side of the closed control loop:
//!
//! - [`esc`]: the pulse parameters of an electronic speed controller and the
//!   mapping from a control signal to a pulse width;
//! - [`motor`]: the command sequences that arm, ramp, steer and stop one
//!   rotor;
//! - [`flight`]: the schedule by which the flight loop drives four rotors,
//!   from arming to shutdown;
//! - [`run`]: what holds of every run of that schedule.
//!
//! Nothing here touches hardware. Every operation hands out plain values
//! that say what is to be done to the pulse output, and the caller carries
//! them out. The controller that turns a measured attitude into a control
//! signal computes in floating point and is the caller's as well: a control
//! update takes its output as a whole number of nanoseconds.

pub mod esc;
pub mod flight;
pub mod motor;
pub mod run;

pub use esc::ESCParamsNs;
pub use motor::Motor;
