//! The status LED.
//!
//! The LED lights while its pin is low. The controller holds the level it
//! commands for the pin and does not touch the pin itself: after each call
//! the driver sets the pin from [`BlueLed::state`].

use vstd::prelude::*;

use crate::errors::LedError;
use crate::peripherals::traits::GpioPin;

verus! {

/// The status LED: the level of its pin and whether it is lit.
#[derive(Debug)]
pub struct BlueLed {
    pub(crate) pin_high: bool,
    pub(crate) state: bool,
}

/// What a [`BlueLed`] stands for.
pub struct BlueLedView {
    /// Whether the pin is driven high.
    pub pin_high: bool,
    /// Whether the LED counts as lit.
    pub lit: bool,
}

impl View for BlueLed {
    type V = BlueLedView;

    open(crate) spec fn view(&self) -> BlueLedView {
        BlueLedView { pin_high: self.pin_high, lit: self.state }
    }
}

impl BlueLedView {
    /// The LED on: pin low.
    pub open spec fn on() -> BlueLedView {
        BlueLedView { pin_high: false, lit: true }
    }

    /// The LED off: pin high.
    pub open spec fn off() -> BlueLedView {
        BlueLedView { pin_high: true, lit: false }
    }
}

impl BlueLed {
    /// Creates the controller with the LED on.
    pub fn init_on() -> (led: Self)
        ensures
            led@ == BlueLedView::on(),
    {
        BlueLed { pin_high: false, state: true }
    }

    /// Creates the controller with the LED off.
    pub fn init_off() -> (led: Self)
        ensures
            led@ == BlueLedView::off(),
    {
        BlueLed { pin_high: true, state: false }
    }

    /// Whether the LED is lit.
    pub fn state(&self) -> (lit: bool)
        ensures
            lit == self@.lit,
    {
        self.state
    }

    /// The state of the LED in words.
    pub fn describe(&self) -> (text: &'static str)
        ensures
            self@.lit ==> text@ == "Blue LED: ON"@,
            !self@.lit ==> text@ == "Blue LED: OFF"@,
    {
        if self.state {
            "Blue LED: ON"
        } else {
            "Blue LED: OFF"
        }
    }
}

impl GpioPin for BlueLed {
    type Error = LedError;

    open(crate) spec fn reads_high(&self) -> Result<bool, LedError> {
        Ok(self.pin_high)
    }

    /// Turns the LED off.
    fn set_high(&mut self) -> (result: Result<(), LedError>)
        ensures
            result is Ok,
            final(self)@ == BlueLedView::off(),
    {
        self.pin_high = true;
        self.state = false;
        Ok(())
    }

    /// Turns the LED on.
    fn set_low(&mut self) -> (result: Result<(), LedError>)
        ensures
            result is Ok,
            final(self)@ == BlueLedView::on(),
    {
        self.pin_high = false;
        self.state = true;
        Ok(())
    }

    fn is_set_high(&self) -> (result: Result<bool, LedError>) {
        Ok(self.pin_high)
    }

    /// Commands the level that the LED's state stands for: on for a lit
    /// LED, off for a dark one.
    fn toggle(&mut self) -> (result: Result<(), LedError>)
        ensures
            result is Ok,
            old(self)@.lit ==> final(self)@ == BlueLedView::on(),
            !old(self)@.lit ==> final(self)@ == BlueLedView::off(),
    {
        if self.state {
            self.set_low()
        } else {
            self.set_high()
        }
    }
}

} // verus!
