//! What the handlers ask of an output pin.

use vstd::prelude::*;

verus! {

/// An output pin that can be driven high or low and read back.
pub trait GpioPin {
    /// The fault that an operation on the pin can report.
    type Error;

    /// What a read of the pin gives in its present state: whether it is
    /// high, or a fault.
    spec fn reads_high(&self) -> Result<bool, Self::Error>;

    /// Drives the pin high. Where that succeeds, the pin reads high.
    fn set_high(&mut self) -> (result: Result<(), Self::Error>)
        ensures
            result is Ok ==> final(self).reads_high() == Ok::<bool, Self::Error>(true),
    ;

    /// Drives the pin low. Where that succeeds, the pin reads low.
    fn set_low(&mut self) -> (result: Result<(), Self::Error>)
        ensures
            result is Ok ==> final(self).reads_high() == Ok::<bool, Self::Error>(false),
    ;

    /// Reads whether the pin is high.
    fn is_set_high(&self) -> (result: Result<bool, Self::Error>)
        ensures
            result == self.reads_high(),
    ;

    /// Reads whether the pin is low: the opposite of what
    /// [`GpioPin::is_set_high`] reads, with the same fault.
    fn is_set_low(&self) -> (result: Result<bool, Self::Error>)
        ensures
            result == match self.reads_high() {
                Ok(high) => Ok(!high),
                Err(e) => Err(e),
            },
    {
        match self.is_set_high() {
            Ok(high) => Ok(!high),
            Err(e) => Err(e),
        }
    }

    /// Changes the level of the pin, as the implementation sees fit.
    fn toggle(&mut self) -> Result<(), Self::Error>;
}

} // verus!
