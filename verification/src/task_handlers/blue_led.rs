//! The heartbeat of the status LED.

use vstd::prelude::*;

use crate::peripherals::blue_led::{BlueLed, BlueLedView};
use crate::peripherals::traits::GpioPin;

verus! {

/// Time the LED stays on, in milliseconds.
pub const LED_ON_DURATION: u32 = 4_000;

/// Time the LED stays off, in milliseconds.
pub const LED_OFF_DURATION: u32 = 1_000;

/// Time between two looks at the LED while it does not blink, in
/// milliseconds.
pub const LED_CHECK_INTERVAL: u32 = 60_000;

/// The two phases of the heartbeat.
#[derive(Copy, Clone, PartialEq, Eq, Debug, Structural)]
pub enum LedState {
    /// The LED is on.
    Active,
    /// The LED is off.
    Inactive,
}

impl LedState {
    /// The time that a phase lasts.
    pub open spec fn spec_duration(self) -> u32 {
        match self {
            LedState::Active => LED_ON_DURATION,
            LedState::Inactive => LED_OFF_DURATION,
        }
    }

    /// Returns the time that this phase lasts, in milliseconds.
    pub fn duration(&self) -> (millis: u32)
        ensures
            millis == self.spec_duration(),
    {
        match self {
            LedState::Active => LED_ON_DURATION,
            LedState::Inactive => LED_OFF_DURATION,
        }
    }
}

/// Moves the heartbeat to its other phase and returns how long that phase
/// lasts: a LED whose pin is high is turned on, one whose pin is low is
/// turned off.
pub fn toggle_led(led: &mut BlueLed) -> (millis: u32)
    ensures
        old(led)@.pin_high ==> final(led)@ == BlueLedView::on() && millis == LED_ON_DURATION,
        !old(led)@.pin_high ==> final(led)@ == BlueLedView::off() && millis == LED_OFF_DURATION,
{
    let current_state = match led.is_set_high() {
        Ok(true) => LedState::Inactive,
        Ok(false) => LedState::Active,
        Err(_) => LedState::Inactive,
    };

    match current_state {
        LedState::Active => {
            let _ = led.set_high();
            LedState::Inactive.duration()
        },
        LedState::Inactive => {
            let _ = led.set_low();
            LedState::Active.duration()
        },
    }
}

} // verus!
