//! The coil-driver capability that the controller delegates to.
use vstd::prelude::*;

verus! {

/// A coil driver: maps a step index to the energisation of the motor's coils.
///
/// Implementors own their output pins. Failures of those pins surface as
/// `Self::Error`.
pub trait StepperMotor {
    type Error;

    /// Energises the coils for the step index `this_step`.
    fn step(&mut self, this_step: u32) -> Result<(), Self::Error>;

    /// De-energises every coil (drives all pins low).
    fn clear(&mut self) -> Result<(), Self::Error>;
}

} // verus!
