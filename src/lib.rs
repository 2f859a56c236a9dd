//! A small blocking stepper-motor controller for firmware targets.
//!
//! - [`driver::StepperMotor`] is the coil-driver capability: a step index in,
//!   coils energised.
//! - [`motors`] holds the coil tables of the 2-, 4- and 5-pin wirings.
//! - [`stepper::Stepper`] tracks position, direction and pacing and drives a
//!   coil driver one step at a time.
pub mod driver;
pub mod motors;
pub mod stepper;
