//! The bodies of the scheduler's tasks.
//!
//! Each function is what one task does on one activation with the shared
//! resources it holds. It returns what the scheduler is to do next: whether
//! to start a forwarding task, or how long to sleep. Every fault ends in
//! the fault-code queue and never reaches the data path.

use vstd::prelude::*;

use crate::config::DATA_PACKET_SIZE;
use crate::error_queue::FaultCodeQueue;
use crate::errors::{DeviceError, UsbError};
use crate::peripherals::blue_led::{BlueLed, BlueLedView};
use crate::peripherals::otg_fs::{
    configured, staged, write_outcome, EndpointError, OtgFsController, OtgFsView, UsbDeviceState,
};
use crate::peripherals::red_led::RedLed;
use crate::peripherals::traits::GpioPin;
use crate::peripherals::usart_6::{DmaDirection, Usart6Controller, Usart6View};
use crate::ring_buffer::{after_pop, popped_by, RingBuffer};
use crate::task_handlers::blue_led::{
    toggle_led, LED_CHECK_INTERVAL, LED_OFF_DURATION, LED_ON_DURATION,
};
use crate::task_handlers::dma2::{
    dma_rx_result, dma_tx_result, handle_dma_rx, handle_dma_tx, handle_usart_error,
    rx_after_dma_rx, tx_after_dma_tx, usart_after_dma_rx, usart_after_dma_tx, usart_error_check,
};
use crate::task_handlers::error_handlers::{after_add, handle_error, has_errors};
use crate::task_handlers::otg_fs::{
    handle_usb, inbound_content, inbound_result, outbound_content, process_rx_buffer,
};
use crate::task_handlers::red_led_handler::{
    loading_step, playing_step, scratch_after, update_red_led,
};

verus! {

/// Time the fault display sleeps while it has nothing to show, in
/// milliseconds.
pub const DISPLAY_IDLE_DELAY: u32 = 500;

/// Time between two ticks of the fault display while it is at work, in
/// milliseconds.
pub const DISPLAY_TICK_DELAY: u32 = 10;

/// The queue after a step that may have failed: a failure adds the code of
/// `fault`, as far as the queue has room.
pub open spec fn reported(queue: Seq<u16>, failed: bool, fault: DeviceError) -> Seq<u16> {
    if failed {
        after_add(queue, fault.spec_code())
    } else {
        queue
    }
}

/// Whether the receive stream exists and has no transfer in flight.
pub open spec fn rx_idle(usart: Usart6View) -> bool {
    usart.dma_rx matches Some(stream) && !stream.enabled
}

/// The link event handler: harvests the receive direction where no
/// transfer is in flight, then handles transfer faults.
///
/// Returns whether received bytes were stored, so that the forwarding to
/// the host is to be started.
pub fn usart6(
    usart: &mut Usart6Controller,
    rx: &mut RingBuffer,
    rx_retry_count: &mut u8,
    tx_retry_count: &mut u8,
    queue: &mut FaultCodeQueue,
) -> (forward: bool)
    requires
        old(usart).wf(),
        old(rx).wf(),
    ensures
        final(usart).wf(),
        final(rx).wf(),
        ({
            let idle = rx_idle(old(usart)@);
            let harvested = if idle {
                usart_after_dma_rx(old(usart)@, old(rx)@)
            } else {
                old(usart)@
            };
            let harvest_failed = old(usart)@.dma_rx is None || (idle && dma_rx_result(
                old(usart)@,
                old(rx)@,
            ) is Err);
            let check = usart_error_check(harvested, *old(rx_retry_count), *old(tx_retry_count));
            &&& forward == (idle && dma_rx_result(old(usart)@, old(rx)@) is Ok)
            &&& final(rx)@ == if idle {
                rx_after_dma_rx(old(usart)@, old(rx)@)
            } else {
                old(rx)@
            }
            &&& final(usart)@ == check.usart
            &&& *final(rx_retry_count) == check.rx_retry_count
            &&& *final(tx_retry_count) == check.tx_retry_count
            &&& final(queue)@ == reported(
                reported(old(queue)@, harvest_failed, DeviceError::DmaError),
                check.result is Err,
                DeviceError::DmaError,
            )
        }),
{
    let mut forward = false;
    match usart.is_dma_rx_is_idle() {
        Ok(true) => match handle_dma_rx(usart, rx) {
            Err(e) => {
                handle_error(queue, DeviceError::from(e));
            },
            Ok(()) => {
                forward = true;
            },
        },
        Ok(false) => {},
        Err(e) => {
            handle_error(queue, DeviceError::from(e));
        },
    }
    if let Err(e) = handle_usart_error(usart, rx_retry_count, tx_retry_count) {
        handle_error(queue, DeviceError::from(e));
    }
    forward
}

/// The transmit-complete handler: clears the completion flag of the
/// transmit stream and starts nothing.
pub fn dma2_stream6(usart: &mut Usart6Controller)
    ensures
        final(usart).wf() == old(usart).wf(),
        final(usart)@ == old(usart)@.clear_complete(DmaDirection::Tx),
{
    usart.clear_dma_tx_complete_flag();
}

/// The receive-complete handler: harvests the receive direction. The
/// forwarding to the host is to be started whatever the outcome.
pub fn dma2_stream1(usart: &mut Usart6Controller, rx: &mut RingBuffer, queue: &mut FaultCodeQueue)
    requires
        old(usart).wf(),
        old(rx).wf(),
    ensures
        final(usart).wf(),
        final(rx).wf(),
        final(usart)@ == usart_after_dma_rx(old(usart)@, old(rx)@),
        final(rx)@ == rx_after_dma_rx(old(usart)@, old(rx)@),
        final(queue)@ == reported(
            old(queue)@,
            dma_rx_result(old(usart)@, old(rx)@) is Err,
            DeviceError::DmaError,
        ),
{
    if let Err(e) = handle_dma_rx(usart, rx) {
        handle_error(queue, DeviceError::from(e));
    }
}

/// Whether the controller has a device and a serial endpoint to poll.
pub open spec fn pollable(usb: OtgFsView) -> bool {
    usb.device is Some && usb.serial
}

/// The first half of the USB event handler: records the device state that
/// the bus reported at this poll, and decides whether the endpoint is to be
/// read.
///
/// Without a device or a serial endpoint there is nothing to poll: that is
/// reported as a USB fault, and nothing is to be read. Otherwise the
/// endpoint is to be read exactly when the device has completed
/// enumeration.
pub fn otg_fs_poll(
    usb: &mut OtgFsController,
    state: UsbDeviceState,
    queue: &mut FaultCodeQueue,
) -> (read: bool)
    ensures
        !pollable(old(usb)@) ==> !read && *final(usb) == *old(usb) && final(queue)@ == after_add(
            old(queue)@,
            DeviceError::UsbError.spec_code(),
        ),
        pollable(old(usb)@) ==> read == (state == UsbDeviceState::Configured) && final(usb)@
            == (OtgFsView { device: Some(state), ..old(usb)@ }) && final(queue)@ == old(queue)@,
{
    if !usb.poll(state) {
        handle_error(queue, DeviceError::from(UsbError::PollError));
        return false;
    }
    usb.is_configured()
}

/// The second half of the USB event handler: admits the packet that the
/// endpoint handed over to the transmit buffer.
///
/// `received` is what the endpoint answered to a read into the inbound
/// staging area. Returns the number of bytes admitted; where it is not
/// zero, the forwarding of that many bytes to the link is to be started. A
/// packet that cannot be admitted is reported as a USB fault.
pub fn otg_fs(
    usb: &mut OtgFsController,
    received: Result<usize, EndpointError>,
    tx: &mut RingBuffer,
    queue: &mut FaultCodeQueue,
) -> (bytes_processed: usize)
    requires
        old(tx).wf(),
        received matches Ok(count) ==> count <= DATA_PACKET_SIZE,
    ensures
        final(tx).wf(),
        *final(usb) == *old(usb),
        !configured(old(usb)@) ==> bytes_processed == 0 && *final(tx) == *old(tx) && final(queue)@
            == old(queue)@,
        configured(old(usb)@) ==> ({
            let result = inbound_result(old(usb)@, received, old(tx)@);
            &&& final(tx)@ == inbound_content(old(usb)@, received, old(tx)@)
            &&& result matches Ok(count) ==> bytes_processed == count
                && final(queue)@ == old(queue)@
            &&& result is Err ==> bytes_processed == 0 && *final(tx) == *old(tx) && final(queue)@
                == after_add(old(queue)@, DeviceError::UsbError.spec_code())
        }),
{
    match handle_usb(usb, received, tx) {
        Ok(bytes_processed) => bytes_processed,
        Err(e) => {
            handle_error(queue, e);
            0
        },
    }
}

/// The forwarding to the host: drains up to one packet from the receive
/// buffer and writes it to the endpoint through `endpoint_write`.
pub fn ring_buffer_rx_to_serial<W: FnOnce(&[u8]) -> Result<usize, EndpointError>>(
    usb: &mut OtgFsController,
    rx: &mut RingBuffer,
    queue: &mut FaultCodeQueue,
    endpoint_write: W,
)
    requires
        old(rx).wf(),
        old(rx)@.len() > 0 && old(usb)@.serial ==> forall|packet: &[u8]|
            packet@ == popped_by(old(rx)@, DATA_PACKET_SIZE as nat) ==> call_requires(
                endpoint_write,
                (packet,),
            ),
    ensures
        final(rx).wf(),
        old(rx)@.len() == 0 ==> final(rx)@ == old(rx)@ && *final(usb) == *old(usb)
            && final(queue)@ == old(queue)@,
        old(rx)@.len() > 0 && !old(usb)@.serial ==> final(rx)@ == after_pop(
            old(rx)@,
            DATA_PACKET_SIZE as nat,
        ) && *final(usb) == *old(usb) && final(queue)@ == after_add(
            old(queue)@,
            DeviceError::UsbError.spec_code(),
        ),
        old(rx)@.len() > 0 && old(usb)@.serial ==> final(usb)@ == (OtgFsView {
            tx_buffer: staged(old(usb)@.tx_buffer, popped_by(old(rx)@, DATA_PACKET_SIZE as nat)),
            ..old(usb)@
        }) && exists|packet: &[u8], answer: Result<usize, EndpointError>|
            packet@ == popped_by(old(rx)@, DATA_PACKET_SIZE as nat) && call_ensures(
                endpoint_write,
                (packet,),
                answer,
            ) && final(rx)@ == outbound_content(
                after_pop(old(rx)@, DATA_PACKET_SIZE as nat),
                packet@,
                write_outcome(answer),
            ) && final(queue)@ == reported(old(queue)@, answer is Err, DeviceError::UsbError),
{
    if let Err(e) = process_rx_buffer(usb, rx, endpoint_write) {
        handle_error(queue, e);
    }
}

/// The forwarding to the link: sends `bytes_processed` bytes from the
/// transmit buffer.
pub fn ring_buffer_tx_to_usart_dma(
    usart: &mut Usart6Controller,
    tx: &mut RingBuffer,
    bytes_processed: usize,
    queue: &mut FaultCodeQueue,
)
    requires
        old(tx).wf(),
    ensures
        final(tx).wf(),
        final(usart).wf() == old(usart).wf(),
        final(usart)@ == usart_after_dma_tx(old(usart)@, old(tx)@, bytes_processed),
        final(tx)@ == tx_after_dma_tx(old(tx)@, bytes_processed),
        final(queue)@ == reported(
            old(queue)@,
            dma_tx_result(old(usart)@, old(tx)@, bytes_processed) is Err,
            DeviceError::DmaError,
        ),
{
    if let Err(e) = handle_dma_tx(usart, tx, bytes_processed) {
        handle_error(queue, DeviceError::from(e));
    }
}

/// One beat of the status LED. While the fault LED plays, and while
/// blinking is off, the status LED is dark and looked at again after the
/// check interval; otherwise it changes phase.
///
/// Returns the time to sleep, in milliseconds.
pub fn blue_led_blink(
    led: &mut BlueLed,
    is_red_led_active: bool,
    is_blue_led_blinking: bool,
    queue: &mut FaultCodeQueue,
) -> (delay: u32)
    ensures
        final(queue)@ == old(queue)@,
        is_red_led_active || !is_blue_led_blinking ==> final(led)@ == BlueLedView::off() && delay
            == LED_CHECK_INTERVAL,
        !is_red_led_active && is_blue_led_blinking && old(led)@.pin_high ==> final(led)@
            == BlueLedView::on() && delay == LED_ON_DURATION,
        !is_red_led_active && is_blue_led_blinking && !old(led)@.pin_high ==> final(led)@
            == BlueLedView::off() && delay == LED_OFF_DURATION,
{
    if is_red_led_active {
        if let Err(e) = led.set_high() {
            handle_error(queue, DeviceError::from(e));
        }
        LED_CHECK_INTERVAL
    } else if is_blue_led_blinking {
        toggle_led(led)
    } else {
        if let Err(e) = led.set_high() {
            handle_error(queue, DeviceError::from(e));
        } 
        LED_CHECK_INTERVAL
    }
}

/// One round of the fault display at time `current_time`.
///
/// With a sequence loaded, the annunciator advances by one tick, whatever
/// the queue holds. With nothing loaded, the next code is taken from the
/// queue and loaded; where no code waits either, the display rests. Returns
/// the time for which the task is to sleep before the next round: the tick
/// while the display is at work, the idle delay while it rests.
pub fn task_display_error_codes(
    red_led: &mut RedLed,
    is_red_led_active: &mut bool,
    current_time: u32,
    buffer: &mut [u8],
    queue: &mut FaultCodeQueue,
) -> (delay: Option<u32>)
    requires
        old(red_led).wf(),
    ensures
        final(red_led).wf(),
        !*final(is_red_led_active),
        old(red_led)@.sequence is Some ==> delay == Some(DISPLAY_TICK_DELAY) && final(red_led)@
            == playing_step(old(red_led)@, current_time) && final(queue)@ == old(queue)@
            && final(buffer)@ == old(buffer)@,
        old(red_led)@.sequence is None && old(queue)@.len() == 0 ==> delay == Some(
            DISPLAY_IDLE_DELAY,
        ) && *final(red_led) == *old(red_led) && final(queue)@ == old(queue)@ && final(buffer)@
            == old(buffer)@,
        old(red_led)@.sequence is None && old(queue)@.len() > 0 ==> delay == Some(
            DISPLAY_TICK_DELAY,
        ) && final(red_led)@ == loading_step(old(red_led)@, old(queue)@[0], old(buffer)@.len())
            && final(queue)@ == old(queue)@.drop_first() && final(buffer)@ == scratch_after(
            old(buffer)@,
            old(queue)@[0],
        ),
{
    if !red_led.is_playing() && !has_errors(queue) {
        *is_red_led_active = false;
        return Some(DISPLAY_IDLE_DELAY);
    }
    *is_red_led_active = true;
    update_red_led(red_led, current_time, buffer, queue);
    *is_red_led_active = false;
    Some(DISPLAY_TICK_DELAY)
}

} // verus!
