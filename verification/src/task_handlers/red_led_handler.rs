//! The fault annunciator: plays queued fault codes on the fault LED.
//!
//! One call of [`update_red_led`] is one tick. With no sequence loaded, a
//! tick takes the next code from the queue and loads its optical code. With
//! a sequence loaded, a tick moves the state machine of the current symbol:
//! idle, then the signal (LED on for a dot or a dash), then the pause (LED
//! off), then idle at the next symbol. Codes are played one at a time, in
//! the order in which they were queued.

use vstd::prelude::*;

use crate::error_queue::FaultCodeQueue;
use crate::peripherals::red_led::{MorseState, RedLed, RedLedView};
use crate::task_handlers::error_handlers::get_first_error_code;
use crate::utils::morse::{lemma_encoding_length, morse_encoding, DASH, DOT, GAP};

verus! {

/// Time the LED is on for a dot, in milliseconds.
pub const MORSE_DOT_DURATION: u32 = 200;

/// Time the LED is on for a dash, in milliseconds.
pub const MORSE_DASH_DURATION: u32 = MORSE_DOT_DURATION * 3;

/// Time the LED is off after a dot or a dash, in milliseconds.
pub const MORSE_SYMBOL_PAUSE: u32 = MORSE_DOT_DURATION;

/// Time the LED is off for a gap between two digits, in milliseconds.
pub const MORSE_WORD_PAUSE: u32 = MORSE_DOT_DURATION * 7;

/// The state after the sequence has been discarded: empty and idle, the LED
/// level as it was.
pub open spec fn discarded(led: RedLedView) -> RedLedView {
    RedLedView::empty(led.lit)
}

/// One tick in the idle state: past the last symbol the sequence is
/// discarded; a dot or a dash turns the LED on and starts the signal; a gap
/// starts the pause with the LED as it is; any other symbol discards the
/// sequence.
pub open spec fn idle_step(led: RedLedView, now: u32) -> RedLedView {
    if led.index >= led.length() {
        discarded(led)
    } else {
        match led.symbol() {
            Some(symbol) => if symbol == '.' || symbol == '-' {
                RedLedView { lit: true, state: MorseState::Signal, last_toggle: now, ..led }
            } else if symbol == ' ' {
                RedLedView { state: MorseState::Pause, last_toggle: now, ..led }
            } else {
                discarded(led)
            },
            None => led,
        }
    }
}

/// One tick in the signal state at time `now`, `elapsed` milliseconds after
/// the LED went on: once the symbol's duration is over, the LED goes off and
/// the pause starts, timed from `now`.
pub open spec fn signal_step(led: RedLedView, elapsed: u32, now: u32) -> RedLedView {
    if led.symbol() == Some('.') || led.symbol() == Some('-') {
        let duration = if led.symbol() == Some('.') {
            MORSE_DOT_DURATION
        } else {
            MORSE_DASH_DURATION
        };
        if elapsed >= duration {
            RedLedView { lit: false, state: MorseState::Pause, last_toggle: now, ..led }
        } else {
            led
        }
    } else {
        discarded(led)
    }
}

/// One tick in the pause state at time `now`, `elapsed` milliseconds after
/// the pause began: once the symbol's pause is over, the next symbol becomes
/// current, in the idle state.
pub open spec fn pause_step(led: RedLedView, elapsed: u32, now: u32) -> RedLedView {
    if led.symbol() == Some('.') || led.symbol() == Some('-') || led.symbol() == Some(' ') {
        let required = if led.symbol() == Some(' ') {
            MORSE_WORD_PAUSE
        } else {
            MORSE_SYMBOL_PAUSE
        };
        if elapsed >= required {
            RedLedView {
                index: led.index + 1,
                state: MorseState::Idle,
                last_toggle: now,
                ..led
            }
        } else {
            led
        }
    } else {
        discarded(led)
    }
}

/// One tick with a sequence loaded.
pub open spec fn playing_step(led: RedLedView, now: u32) -> RedLedView {
    match led.state {
        MorseState::Idle => idle_step(led, now),
        MorseState::Signal => signal_step(led, now.wrapping_sub(led.last_toggle), now),
        MorseState::Pause => pause_step(led, now.wrapping_sub(led.last_toggle), now),
    }
}

/// The LED after a tick with nothing loaded and `code` at the front of the
/// queue: the code's sequence is loaded when it fits a scratch buffer of
/// `room` bytes, and the code is dropped when it does not.
pub open spec fn loading_step(led: RedLedView, code: u16, room: nat) -> RedLedView {
    if morse_encoding(code).len() <= room {
        RedLedView::loaded(led.lit, morse_encoding(code))
    } else {
        led
    }
}

/// The scratch buffer after the code of `code` has been written to it, as
/// far as it has room.
pub open spec fn scratch_after(scratch: Seq<u8>, code: u16) -> Seq<u8> {
    if morse_encoding(code).len() <= scratch.len() {
        morse_encoding(code) + scratch.subrange(
            morse_encoding(code).len() as int,
            scratch.len() as int,
        )
    } else {
        morse_encoding(code).subrange(0, scratch.len() as int)
    }
}

/// Whether every symbol is a dot, a dash or a gap.
pub open spec fn valid_symbols(symbols: Seq<u8>) -> bool {
    forall|i: int|
        0 <= i < symbols.len() ==> {
            let symbol = #[trigger] symbols[i] as char;
            symbol == '.' || symbol == '-' || symbol == ' '
        }
}

/// What holds of the annunciator while it plays a sequence: the symbols are
/// valid, the LED is on exactly during a signal, a signal stands on a dot or
/// a dash, and a pause stands on a symbol of the sequence.
pub open spec fn playing_inv(led: RedLedView) -> bool {
    &&& led.sequence is Some
    &&& valid_symbols(led.sequence->Some_0)
    &&& led.length() <= crate::config::MAX_MORSE_LENGTH
    &&& led.index <= led.length()
    &&& led.lit <==> led.state == MorseState::Signal
    &&& led.state == MorseState::Signal ==> led.index < led.length() && (led.symbol() == Some('.')
        || led.symbol() == Some('-'))
    &&& led.state == MorseState::Pause ==> led.index < led.length()
}

/// A freshly loaded code, with the LED off, is in the playing state.
pub proof fn lemma_loaded_code_plays(code: u16)
    ensures
        playing_inv(RedLedView::loaded(false, morse_encoding(code))),
{
    lemma_encoding_length(code);
    let symbols = morse_encoding(code);
    assert forall|i: int| 0 <= i < symbols.len() implies {
        let symbol = #[trigger] symbols[i] as char;
        symbol == '.' || symbol == '-' || symbol == ' '
    } by {
        let byte = symbols[i];
        assert(byte == DOT || byte == DASH || byte == GAP);
    }
}

/// A sequence is played to its end and never replaced. A tick of the playing
/// annunciator keeps the sequence, with its index not moving back, and keeps
/// what holds while playing; or it discards the sequence, and this only in
/// the idle state past the last symbol, with the LED off.
pub proof fn lemma_sequence_played_whole(led: RedLedView, now: u32)
    requires
        playing_inv(led),
    ensures
        ({
            let next = playing_step(led, now);
            ||| playing_inv(next) && next.sequence == led.sequence && next.index >= led.index
            ||| next == RedLedView::empty(false) && led.state == MorseState::Idle && led.index
                == led.length()
        }),
{
    let symbols = led.sequence->Some_0;
    if led.index < led.length() {
        let symbol = symbols[led.index as int] as char;
        assert(symbol == '.' || symbol == '-' || symbol == ' ');
    }
}

/// One tick of the annunciator with its queue, with a scratch buffer of
/// `room` bytes: what [`update_red_led`] does to the two.
pub open spec fn display_tick(led: RedLedView, queue: Seq<u16>, room: nat, now: u32) -> (
    RedLedView,
    Seq<u16>,
) {
    if led.sequence is Some {
        (playing_step(led, now), queue)
    } else if queue.len() == 0 {
        (led, queue)
    } else {
        (loading_step(led, queue[0], room), queue.drop_first())
    }
}

/// The symbol that a tick begins to show, if it begins one: a tick that
/// leaves the idle state begins the current symbol.
pub open spec fn symbol_begun(led: RedLedView, now: u32) -> Seq<u8> {
    if led.sequence is Some && led.state == MorseState::Idle && playing_step(led, now).state
        != MorseState::Idle {
        seq![led.sequence->Some_0[led.index as int]]
    } else {
        Seq::empty()
    }
}

/// Where a run of ticks has brought the display.
pub struct DisplayRun {
    /// The annunciator.
    pub led: RedLedView,
    /// The codes that still wait.
    pub queue: Seq<u16>,
    /// The symbols begun so far, in the order in which they were begun.
    pub shown: Seq<u8>,
}

/// A run of ticks at the given times, from an empty annunciator with the
/// LED off and the given codes in the queue.
pub open spec fn display_run(queue: Seq<u16>, room: nat, times: Seq<u32>) -> DisplayRun
    decreases times.len(),
{
    if times.len() == 0 {
        DisplayRun { led: RedLedView::empty(false), queue, shown: Seq::empty() }
    } else {
        let before = display_run(queue, room, times.drop_last());
        let after = display_tick(before.led, before.queue, room, times.last());
        DisplayRun {
            led: after.0,
            queue: after.1,
            shown: before.shown + symbol_begun(before.led, times.last()),
        }
    }
}

/// The symbols of the given codes, code after code.
pub open spec fn symbols_of(codes: Seq<u16>) -> Seq<u8>
    decreases codes.len(),
{
    if codes.len() == 0 {
        Seq::empty()
    } else {
        symbols_of(codes.drop_last()) + morse_encoding(codes.last())
    }
}

/// Number of symbols of the loaded sequence that have been begun.
pub open spec fn begun(led: RedLedView) -> nat {
    if led.state == MorseState::Idle {
        led.index
    } else {
        led.index + 1
    }
}

/// What holds of the display after any run of ticks on the codes `queue`:
/// codes leave the queue from its front; with nothing loaded, the symbols
/// begun are those of the codes taken, code after code; with a sequence
/// loaded, it is the code taken last, and the symbols begun are those of
/// the codes taken before it followed by the start of its own.
pub open spec fn shown_in_order(queue: Seq<u16>, run: DisplayRun) -> bool {
    let taken = queue.len() - run.queue.len();
    &&& 0 <= taken <= queue.len()
    &&& run.queue == queue.subrange(taken, queue.len() as int)
    &&& match run.led.sequence {
        None => run.led == RedLedView::empty(false) && run.shown == symbols_of(
            queue.subrange(0, taken),
        ),
        Some(symbols) => taken >= 1 && symbols == morse_encoding(queue[taken - 1])
            && playing_inv(run.led) && run.shown == symbols_of(queue.subrange(0, taken - 1))
            + symbols.subrange(0, begun(run.led) as int),
    }
}

/// One more tick keeps the symbols in order.
proof fn lemma_tick_in_order(queue: Seq<u16>, before: DisplayRun, room: nat, now: u32)
    requires
        room >= 29,
        shown_in_order(queue, before),
    ensures
        shown_in_order(
            queue,
            DisplayRun {
                led: display_tick(before.led, before.queue, room, now).0,
                queue: display_tick(before.led, before.queue, room, now).1,
                shown: before.shown + symbol_begun(before.led, now),
            },
        ),
{
    let taken = queue.len() - before.queue.len();
    let after = display_tick(before.led, before.queue, room, now);
    let shown = before.shown + symbol_begun(before.led, now);
    match before.led.sequence {
        None => {
            assert(shown =~= before.shown);
            if before.queue.len() > 0 {
                let code = before.queue[0];
                assert(code == queue[taken]);
                lemma_encoding_length(code);
                lemma_loaded_code_plays(code);
                assert(after.1 =~= queue.subrange(taken + 1, queue.len() as int));
                assert(morse_encoding(code).subrange(0, 0) =~= Seq::<u8>::empty());
                assert(before.shown + Seq::<u8>::empty() =~= before.shown);
            }
        },
        Some(symbols) => {
            lemma_sequence_played_whole(before.led, now);
            let earlier = symbols_of(queue.subrange(0, taken - 1));
            if after.0.sequence is None {
                // discarded past its last symbol: the whole code has been shown
                assert(shown =~= before.shown);
                assert(symbols.subrange(0, symbols.len() as int) =~= symbols);
                let codes = queue.subrange(0, taken);
                assert(codes.drop_last() =~= queue.subrange(0, taken - 1));
                assert(codes.last() == queue[taken - 1]);
            } else if before.led.state == MorseState::Idle {
                let i = before.led.index as int;
                assert(symbols.subrange(0, i) + seq![symbols[i]] =~= symbols.subrange(0, i + 1));
                assert(shown =~= earlier + symbols.subrange(0, i + 1));
            } else {
                assert(shown =~= before.shown);
            }
        },
    }
}

/// Codes are shown one after the other, in the order in which they were
/// queued. After any run of ticks, at any times, on any queued codes, with a
/// scratch buffer that holds a whole code: the symbols begun so far are the
/// symbols of the codes taken from the queue, code after code, the last of
/// them as far as it has been played. No symbol of a code is begun before
/// every symbol of the codes before it.
pub proof fn lemma_codes_shown_in_order(queue: Seq<u16>, room: nat, times: Seq<u32>)
    requires
        room >= 29,
    ensures
        shown_in_order(queue, display_run(queue, room, times)),
    decreases times.len(),
{
    if times.len() == 0 {
        assert(queue.subrange(0, queue.len() as int) =~= queue);
        assert(queue.subrange(0, 0) =~= Seq::<u16>::empty());
    } else {
        lemma_codes_shown_in_order(queue, room, times.drop_last());
        lemma_tick_in_order(queue, display_run(queue, room, times.drop_last()), room, times.last());
    }
}

/// Advances the annunciator by one tick at time `current_time`.
///
/// While a sequence is loaded the queue is not touched: the next code is
/// taken only after the sequence has been discarded.
pub fn update_red_led(
    led: &mut RedLed,
    current_time: u32,
    buffer: &mut [u8],
    queue: &mut FaultCodeQueue,
)
    requires
        old(led).wf(),
    ensures
        final(led).wf(),
        (final(led)@, final(queue)@) == display_tick(
            old(led)@,
            old(queue)@,
            old(buffer)@.len(),
            current_time,
        ),
        final(buffer)@ == if old(led)@.sequence is None && old(queue)@.len() > 0 {
            scratch_after(old(buffer)@, old(queue)@[0])
        } else {
            old(buffer)@
        },
{
    if led.morse_sequence.is_some() {
        handle_active_sequence(led, current_time)
    } else {
        start_new_sequence(led, buffer, queue)
    }
}

/// One tick with a sequence loaded.
fn handle_active_sequence(led: &mut RedLed, current_time: u32)
    requires
        old(led).wf(),
    ensures
        final(led).wf(),
        final(led)@ == playing_step(old(led)@, current_time),
{
    let elapsed = calculate_elapsed(current_time, led.last_toggle);

    match led.morse_state {
        MorseState::Idle => process_idle_state(led, current_time),
        MorseState::Signal => process_signal_state(led, elapsed, current_time),
        MorseState::Pause => process_pause_state(led, elapsed, current_time),
    }
}

/// One tick with nothing loaded: takes the next code from the queue, if
/// there is one, and loads its sequence.
fn start_new_sequence(led: &mut RedLed, buffer: &mut [u8], queue: &mut FaultCodeQueue)
    requires
        old(led).wf(),
        old(led)@.sequence is None,
    ensures
        final(led).wf(),
        old(queue)@.len() == 0 ==> final(led)@ == old(led)@ && final(queue)@ == old(queue)@
            && final(buffer)@ == old(buffer)@,
        old(queue)@.len() > 0 ==> final(led)@ == loading_step(
            old(led)@,
            old(queue)@[0],
            old(buffer)@.len(),
        ) && final(queue)@ == old(queue)@.drop_first() && final(buffer)@ == scratch_after(
            old(buffer)@,
            old(queue)@[0],
        ),
{
    if let Some(code) = get_first_error_code(queue) {
        let _ = led.start_morse_sequence(code, buffer);
    }
}

/// The idle state: starts the current symbol, or discards the sequence.
fn process_idle_state(led: &mut RedLed, current_time: u32)
    requires
        old(led).wf(),
    ensures
        final(led).wf(),
        final(led)@ == idle_step(old(led)@, current_time),
{
    if led.morse_index >= led.morse_length {
        led.reset_morse_state();
        return ;
    }
    if let Some(symbol) = led.current_symbol() {
        match symbol {
            '.' | '-' => activate_led(led, current_time),
            ' ' => start_pause(led, current_time),
            _ => handle_invalid_symbol(led),
        }
    }
}

/// The signal state: ends the signal once the symbol's duration is over.
fn process_signal_state(led: &mut RedLed, elapsed: u32, current_time: u32)
    requires
        old(led).wf(),
    ensures
        final(led).wf(),
        final(led)@ == signal_step(old(led)@, elapsed, current_time),
{
    let duration = match led.current_symbol() {
        Some('.') => MORSE_DOT_DURATION,
        Some('-') => MORSE_DASH_DURATION,
        _ => {
            led.reset_morse_state();
            return ;
        },
    };

    if elapsed >= duration {
        deactivate_led(led, current_time);
    }
}

/// The pause state: moves to the next symbol once the pause is over.
fn process_pause_state(led: &mut RedLed, elapsed: u32, current_time: u32)
    requires
        old(led).wf(),
    ensures
        final(led).wf(),
        final(led)@ == pause_step(old(led)@, elapsed, current_time),
{
    let required_pause = match led.current_symbol() {
        Some('.') | Some('-') => MORSE_SYMBOL_PAUSE,
        Some(' ') => MORSE_WORD_PAUSE,
        _ => {
            led.reset_morse_state();
            return ;
        },
    };

    if elapsed >= required_pause {
        advance_sequence(led, current_time);
    }
}

/// Time from `last` to `current`, in milliseconds, across a wrap of the
/// 32-bit clock.
pub fn calculate_elapsed(current: u32, last: u32) -> (elapsed: u32)
    ensures
        elapsed == current.wrapping_sub(last),
        current >= last ==> elapsed == current - last,
        current < last ==> elapsed == current + 0x1_0000_0000 - last,
{
    current.wrapping_sub(last)
}

/// Turns the LED on and starts the signal.
fn activate_led(led: &mut RedLed, timestamp: u32)
    requires
        old(led).wf(),
    ensures
        final(led).wf(),
        final(led)@ == (RedLedView {
            lit: true,
            state: MorseState::Signal,
            last_toggle: timestamp,
            ..old(led)@
        }),
{
    led.set_low();
    led.morse_state = MorseState::Signal;
    led.last_toggle = timestamp;
}

/// Turns the LED off and starts the pause, timed from `timestamp`.
fn deactivate_led(led: &mut RedLed, timestamp: u32)
    requires
        old(led).wf(),
    ensures
        final(led).wf(),
        final(led)@ == (RedLedView {
            lit: false,
            state: MorseState::Pause,
            last_toggle: timestamp,
            ..old(led)@
        }),
{
    led.set_high();
    led.morse_state = MorseState::Pause;
    led.last_toggle = timestamp;
}

/// Makes the next symbol current, in the idle state.
fn advance_sequence(led: &mut RedLed, timestamp: u32)
    requires
        old(led).wf(),
        old(led)@.index < old(led)@.length(),
    ensures
        final(led).wf(),
        final(led)@ == (RedLedView {
            index: old(led)@.index + 1,
            state: MorseState::Idle,
            last_toggle: timestamp,
            ..old(led)@
        }),
{
    led.morse_index += 1;
    led.morse_state = MorseState::Idle;
    led.last_toggle = timestamp;
}

/// Starts the pause of a gap; the LED stays as it is.
fn start_pause(led: &mut RedLed, timestamp: u32)
    requires
        old(led).wf(),
    ensures
        final(led).wf(),
        final(led)@ == (RedLedView {
            state: MorseState::Pause,
            last_toggle: timestamp,
            ..old(led)@
        }),
{
    led.morse_state = MorseState::Pause;
    led.last_toggle = timestamp;
}

/// Discards a sequence that holds a symbol other than dot, dash and gap.
fn handle_invalid_symbol(led: &mut RedLed)
    ensures
        final(led).wf(),
        final(led)@ == discarded(old(led)@),
{
    led.reset_morse_state();
}

} // verus!
