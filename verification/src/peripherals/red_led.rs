//! The fault LED and the optical sequence it plays.
//!
//! The controller holds the level it commands for the LED and the state of
//! the sequence being played. It does not touch the pin: after each call the
//! driver sets the pin from [`RedLed::is_on`].

use vstd::prelude::*;

use crate::config::MAX_MORSE_LENGTH;
use crate::utils::bytes::copy_run;
use crate::utils::morse::{lemma_encoding_length, morse_encoding, number_to_morse};

verus! {

/// Where the annunciator stands within the current symbol.
#[derive(Debug, Clone, Copy, PartialEq, Eq, Structural)]
pub enum MorseState {
    /// About to start the current symbol.
    Idle,
    /// The LED is on for a dot or a dash.
    Signal,
    /// The LED is off after a symbol.
    Pause,
}

/// The fault LED with the sequence it plays.
pub struct RedLed {
    pub(crate) lit: bool,
    pub(crate) morse_sequence: Option<[u8; MAX_MORSE_LENGTH]>,
    pub(crate) morse_length: usize,
    pub(crate) morse_index: usize,
    pub(crate) morse_state: MorseState,
    pub(crate) last_toggle: u32,
}

/// What a [`RedLed`] stands for.
pub struct RedLedView {
    /// Whether the LED is commanded on.
    pub lit: bool,
    /// The symbols of the loaded sequence, if one is loaded.
    pub sequence: Option<Seq<u8>>,
    /// Index of the current symbol.
    pub index: nat,
    /// State within the current symbol.
    pub state: MorseState,
    /// Time of the last transition, in milliseconds.
    pub last_toggle: u32,
}

impl RedLedView {
    /// The state with nothing loaded and the LED at the given level.
    pub open spec fn empty(lit: bool) -> RedLedView {
        RedLedView { lit, sequence: None, index: 0, state: MorseState::Idle, last_toggle: 0 }
    }

    /// The state right after `symbols` has been loaded.
    pub open spec fn loaded(lit: bool, symbols: Seq<u8>) -> RedLedView {
        RedLedView {
            lit,
            sequence: Some(symbols),
            index: 0,
            state: MorseState::Idle,
            last_toggle: 0,
        }
    }

    /// Number of symbols of the loaded sequence; 0 when none is loaded.
    pub open spec fn length(self) -> nat {
        match self.sequence {
            Some(symbols) => symbols.len(),
            None => 0,
        }
    }

    /// The current symbol. Past the end of the sequence the storage reads
    /// as the zero character, and past the storage as nothing.
    pub open spec fn symbol(self) -> Option<char> {
        match self.sequence {
            Some(symbols) => if self.index < symbols.len() {
                Some(symbols[self.index as int] as char)
            } else if self.index < MAX_MORSE_LENGTH {
                Some('\0')
            } else {
                None
            },
            None => None,
        }
    }

    /// This state with the LED at the given level.
    pub open spec fn with_lit(self, lit: bool) -> RedLedView {
        RedLedView { lit, ..self }
    }
}

impl View for RedLed {
    type V = RedLedView;

    open(crate) spec fn view(&self) -> RedLedView {
        RedLedView {
            lit: self.lit,
            sequence: match self.morse_sequence {
                Some(storage) => Some(storage@.subrange(0, self.morse_length as int)),
                None => None,
            },
            index: self.morse_index as nat,
            state: self.morse_state,
            last_toggle: self.last_toggle,
        }
    }
}

impl RedLed {
    /// The sequence fits the storage, the storage is zero past the sequence,
    /// the index is not past the end, and without a sequence the length is 0.
    pub open(crate) spec fn wf(&self) -> bool {
        &&& self.morse_length <= MAX_MORSE_LENGTH
        &&& self.morse_index <= self.morse_length
        &&& match self.morse_sequence {
            Some(storage) => forall|i: int|
                self.morse_length <= i < MAX_MORSE_LENGTH ==> #[trigger] storage@[i] == 0,
            None => self.morse_length == 0,
        }
    }

    /// What validity says of the view.
    pub proof fn lemma_wf(&self)
        requires
            self.wf(),
        ensures
            self@.length() <= MAX_MORSE_LENGTH,
            self@.index <= self@.length(),
    {
    }

    /// Creates the controller with the LED off and nothing loaded.
    pub fn init_off() -> (led: Self)
        ensures
            led.wf(),
            led@ == RedLedView::empty(false),
    {
        RedLed {
            lit: false,
            morse_sequence: None,
            morse_length: 0,
            morse_index: 0,
            morse_state: MorseState::Idle,
            last_toggle: 0,
        }
    }

    /// Loads the optical code of `code`, encoded through `buffer`.
    ///
    /// Succeeds exactly when the code fits in `buffer`; the code of a
    /// 16-bit number always fits the sequence storage. On failure the
    /// controller is unchanged.
    pub fn start_morse_sequence(&mut self, code: u16, buffer: &mut [u8]) -> (result: Result<
        (),
        &'static str,
    >)
        requires
            old(self).wf(),
        ensures
            final(self).wf(),
            final(buffer)@.len() == old(buffer)@.len(),
            morse_encoding(code).len() <= old(buffer)@.len() ==> result is Ok && final(self)@
                == RedLedView::loaded(old(self)@.lit, morse_encoding(code)) && final(buffer)@
                == morse_encoding(code) + old(buffer)@.subrange(
                morse_encoding(code).len() as int,
                old(buffer)@.len() as int,
            ),
            morse_encoding(code).len() > old(buffer)@.len() ==> result is Err && result->Err_0@
                == "Conversion failed"@ && *final(self) == *old(self) && final(buffer)@
                == morse_encoding(code).subrange(0, old(buffer)@.len() as int),
    {
        let length = match number_to_morse(code, buffer) {
            Ok(length) => length,
            Err(_) => {
                return Err("Conversion failed");
            },
        };
        proof {
            lemma_encoding_length(code);
        }
        if length > MAX_MORSE_LENGTH {
            return Err("Sequence too long");
        }
        let mut sequence = [0u8; MAX_MORSE_LENGTH];
        copy_run(&mut sequence, 0, buffer, 0, length);

        self.morse_sequence = Some(sequence);
        self.morse_length = length;
        self.morse_index = 0;
        self.morse_state = MorseState::Idle;
        self.last_toggle = 0;
        proof {
            assert(sequence@.subrange(0, length as int) =~= morse_encoding(code));
        }
        Ok(())
    }

    /// Discards the sequence and returns to the empty idle state. The LED
    /// level stays as it is.
    pub fn reset_morse_state(&mut self)
        ensures
            final(self).wf(),
            final(self)@ == RedLedView::empty(old(self)@.lit),
    {
        self.morse_sequence = None;
        self.morse_length = 0;
        self.morse_index = 0;
        self.morse_state = MorseState::Idle;
        self.last_toggle = 0;
    }

    /// Returns the current symbol of the loaded sequence.
    pub fn current_symbol(&self) -> (symbol: Option<char>)
        requires
            self.wf(),
        ensures
            symbol == self@.symbol(),
    {
        match &self.morse_sequence {
            Some(storage) => {
                if self.morse_index < MAX_MORSE_LENGTH {
                    Some(storage[self.morse_index] as char)
                } else {
                    None
                }
            },
            None => None,
        }
    }

    /// Commands the LED off.
    pub fn set_high(&mut self)
        ensures
            final(self).wf() == old(self).wf(),
            final(self)@ == old(self)@.with_lit(false),
    {
        self.lit = false;
    }

    /// Commands the LED on.
    pub fn set_low(&mut self)
        ensures
            final(self).wf() == old(self).wf(),
            final(self)@ == old(self)@.with_lit(true),
    {
        self.lit = true;
    }

    /// Whether the LED is commanded on.
    pub fn is_on(&self) -> (on: bool)
        ensures
            on == self@.lit,
    {
        self.lit
    }

    /// Commands the LED to the other level.
    pub fn toggle(&mut self)
        ensures
            final(self).wf() == old(self).wf(),
            final(self)@ == old(self)@.with_lit(!old(self)@.lit),
    {
        if self.is_on() {
            self.set_high();
        } else {
            self.set_low();
        }
    }

    /// State within the current symbol.
    pub fn morse_state(&self) -> (state: MorseState)
        ensures
            state == self@.state,
    {
        self.morse_state
    }

    /// Index of the current symbol.
    pub fn morse_index(&self) -> (index: usize)
        ensures
            index == self@.index,
    {
        self.morse_index
    }

    /// Whether a sequence is loaded.
    pub fn is_playing(&self) -> (playing: bool)
        ensures
            playing == self@.sequence.is_some(),
    {
        self.morse_sequence.is_some()
    }
}

} // verus!
