use uart_usb_bridge::error_queue::FaultCodeQueue;
use uart_usb_bridge::peripherals::blue_led::BlueLed;
use uart_usb_bridge::peripherals::otg_fs::{EndpointError, OtgFsController, UsbDeviceState};
use uart_usb_bridge::peripherals::red_led::RedLed;
use uart_usb_bridge::peripherals::usart_6::{DmaStream, LinkCommand, Usart6Controller};
use uart_usb_bridge::ring_buffer::RingBuffer;
use uart_usb_bridge::tasks::{
    blue_led_blink, dma2_stream1, dma2_stream6, otg_fs, otg_fs_poll, ring_buffer_rx_to_serial,
    ring_buffer_tx_to_usart_dma, task_display_error_codes, usart6, DISPLAY_IDLE_DELAY,
    DISPLAY_TICK_DELAY,
};

fn stream(enabled: bool, complete: bool, fault: bool, remaining: u16) -> DmaStream {
    DmaStream { enabled, transfer_complete: complete, transfer_error: fault, remaining }
}

fn codes(queue: &mut FaultCodeQueue) -> Vec<u16> {
    let mut all = Vec::new();
    while let Some(code) = queue.dequeue() {
        all.push(code);
    }
    all
}

fn hardware(data: &[u8]) -> [u8; 128] {
    let mut buffer = [0u8; 128];
    buffer[..data.len()].copy_from_slice(data);
    buffer
}

#[test]
fn link_event_harvests_an_idle_receive_stream() {
    let mut usart = Usart6Controller::new(Some(DmaStream::idle()), Some(DmaStream::idle()));
    usart.observe_rx(stream(false, false, false, 124), &hardware(&[1, 2, 3, 4]));
    let mut rx = RingBuffer::new();
    let mut queue = FaultCodeQueue::new();
    let (mut rx_count, mut tx_count) = (0u8, 0u8);
    assert!(usart6(&mut usart, &mut rx, &mut rx_count, &mut tx_count, &mut queue));
    assert_eq!(rx.len(), 4);
    assert!(queue.is_empty());
    assert_eq!((rx_count, tx_count), (0, 0));
}

#[test]
fn link_event_leaves_a_transfer_in_flight_alone() {
    let mut usart = Usart6Controller::new(Some(DmaStream::idle()), Some(DmaStream::idle()));
    usart.observe_rx(stream(true, false, false, 124), &hardware(&[1, 2, 3, 4]));
    let mut rx = RingBuffer::new();
    let mut queue = FaultCodeQueue::new();
    let (mut rx_count, mut tx_count) = (0u8, 0u8);
    assert!(!usart6(&mut usart, &mut rx, &mut rx_count, &mut tx_count, &mut queue));
    assert!(rx.is_empty());
    assert!(queue.is_empty());
    assert!(usart.take_commands().is_empty());
}

#[test]
fn link_event_reports_faults_as_dma_device_faults() {
    // receive buffer full: the harvest fails; transmit fault beyond the limit
    let mut usart = Usart6Controller::new(Some(DmaStream::idle()), Some(DmaStream::idle()));
    usart.observe_rx(stream(false, true, false, 0), &[9u8; 128]);
    usart.observe_tx(stream(false, false, true, 0));
    let mut rx = RingBuffer::new();
    rx.push(&[0u8; 500]).unwrap();
    let mut queue = FaultCodeQueue::new();
    let (mut rx_count, mut tx_count) = (0u8, 3u8);
    assert!(!usart6(&mut usart, &mut rx, &mut rx_count, &mut tx_count, &mut queue));
    assert_eq!(rx.len(), 500);
    assert_eq!((rx_count, tx_count), (0, 0));
    assert_eq!(codes(&mut queue), vec![1, 1]);
}

#[test]
fn link_event_without_receive_stream_reports_a_fault() {
    let mut usart = Usart6Controller::new(Some(DmaStream::idle()), None);
    let mut rx = RingBuffer::new();
    let mut queue = FaultCodeQueue::new();
    let (mut rx_count, mut tx_count) = (0u8, 0u8);
    assert!(!usart6(&mut usart, &mut rx, &mut rx_count, &mut tx_count, &mut queue));
    assert_eq!(codes(&mut queue), vec![1]);
}

#[test]
fn transmit_complete_clears_the_flag() {
    let mut usart = Usart6Controller::new(Some(stream(false, true, false, 0)), None);
    dma2_stream6(&mut usart);
    assert_eq!(usart.is_dma_tx_complete(), Ok(false));
    assert_eq!(usart.take_commands(), vec![LinkCommand::ClearTxComplete]);
}

#[test]
fn receive_complete_harvests_and_reports() {
    let mut usart = Usart6Controller::new(None, Some(stream(false, true, false, 126)));
    usart.observe_rx(stream(false, true, false, 126), &hardware(&[8, 9]));
    let mut rx = RingBuffer::new();
    let mut queue = FaultCodeQueue::new();
    dma2_stream1(&mut usart, &mut rx, &mut queue);
    assert_eq!(rx.len(), 2);
    assert!(queue.is_empty());

    let mut broken = Usart6Controller::new(None, None);
    dma2_stream1(&mut broken, &mut rx, &mut queue);
    assert_eq!(rx.len(), 2);
    assert_eq!(codes(&mut queue), vec![1]);
}

#[test]
fn usb_poll_asks_for_a_read_only_once_configured() {
    let mut usb = OtgFsController::new(Some(UsbDeviceState::Default), true);
    let mut queue = FaultCodeQueue::new();
    assert!(!otg_fs_poll(&mut usb, UsbDeviceState::Default, &mut queue));
    assert!(!otg_fs_poll(&mut usb, UsbDeviceState::Addressed, &mut queue));
    assert!(!usb.is_configured());
    assert!(otg_fs_poll(&mut usb, UsbDeviceState::Configured, &mut queue));
    assert!(usb.is_configured());
    assert!(!otg_fs_poll(&mut usb, UsbDeviceState::Suspend, &mut queue));
    assert!(!usb.is_configured());
    assert!(queue.is_empty());
}

#[test]
fn usb_poll_without_device_or_endpoint_reports_a_usb_device_fault() {
    let mut queue = FaultCodeQueue::new();
    let mut no_device = OtgFsController::new(None, true);
    assert!(!otg_fs_poll(&mut no_device, UsbDeviceState::Configured, &mut queue));
    assert!(!no_device.is_configured());
    let mut no_serial = OtgFsController::new(Some(UsbDeviceState::Configured), false);
    assert!(!otg_fs_poll(&mut no_serial, UsbDeviceState::Configured, &mut queue));
    assert_eq!(codes(&mut queue), vec![0, 0]);
}

#[test]
fn usb_event_admits_a_packet_once_configured() {
    let mut usb = OtgFsController::new(Some(UsbDeviceState::Addressed), true);
    let mut tx = RingBuffer::new();
    let mut queue = FaultCodeQueue::new();
    usb.get_rx_buffer()[..3].copy_from_slice(&[1, 2, 3]);
    assert_eq!(otg_fs(&mut usb, Ok(3), &mut tx, &mut queue), 0);
    assert!(tx.is_empty());
    assert!(otg_fs_poll(&mut usb, UsbDeviceState::Configured, &mut queue));
    assert_eq!(otg_fs(&mut usb, Ok(3), &mut tx, &mut queue), 3);
    assert_eq!(tx.len(), 3);
    assert_eq!(otg_fs(&mut usb, Err(EndpointError::WouldBlock), &mut tx, &mut queue), 0);
    assert!(queue.is_empty());
}

#[test]
fn usb_event_reports_faults_as_usb_device_faults() {
    let mut queue = FaultCodeQueue::new();
    let mut tx = RingBuffer::new();
    let mut usb = OtgFsController::new(Some(UsbDeviceState::Configured), true);
    assert_eq!(otg_fs(&mut usb, Err(EndpointError::InvalidState), &mut tx, &mut queue), 0);
    tx.push(&[0u8; 510]).unwrap();
    assert_eq!(otg_fs(&mut usb, Ok(3), &mut tx, &mut queue), 0);
    assert_eq!(tx.len(), 510);
    assert_eq!(codes(&mut queue), vec![0, 0]);
}

#[test]
fn forwarding_to_the_host_reports_a_failed_write() {
    let mut usb = OtgFsController::new(Some(UsbDeviceState::Configured), true);
    let mut rx = RingBuffer::new();
    let mut queue = FaultCodeQueue::new();
    ring_buffer_rx_to_serial(&mut usb, &mut rx, &mut queue, |bytes| Ok(bytes.len()));
    assert!(queue.is_empty());
    rx.push(&[1, 2, 3, 4, 5]).unwrap();
    ring_buffer_rx_to_serial(&mut usb, &mut rx, &mut queue, |_| Ok(2));
    assert_eq!(rx.len(), 3);
    assert!(queue.is_empty());
    ring_buffer_rx_to_serial(&mut usb, &mut rx, &mut queue, |_| Err(EndpointError::WouldBlock));
    assert!(rx.is_empty());
    assert_eq!(codes(&mut queue), vec![0]);
}

#[test]
fn forwarding_to_the_link_reports_an_underflow() {
    let mut usart = Usart6Controller::new(Some(DmaStream::idle()), Some(DmaStream::idle()));
    let mut tx = RingBuffer::new();
    let mut queue = FaultCodeQueue::new();
    tx.push(&[1, 2, 3]).unwrap();
    ring_buffer_tx_to_usart_dma(&mut usart, &mut tx, 3, &mut queue);
    assert!(tx.is_empty());
    assert!(queue.is_empty());
    ring_buffer_tx_to_usart_dma(&mut usart, &mut tx, 1, &mut queue);
    assert!(queue.is_empty());
    ring_buffer_tx_to_usart_dma(&mut usart, &mut tx, 129, &mut queue);
    assert_eq!(codes(&mut queue), vec![1]);
}

#[test]
fn status_led_beats_unless_the_fault_led_plays() {
    let mut led = BlueLed::init_off();
    let mut queue = FaultCodeQueue::new();
    assert_eq!(blue_led_blink(&mut led, false, true, &mut queue), 4_000);
    assert!(led.state());
    assert_eq!(blue_led_blink(&mut led, false, true, &mut queue), 1_000);
    assert!(!led.state());
    assert_eq!(blue_led_blink(&mut led, false, true, &mut queue), 4_000);
    assert_eq!(blue_led_blink(&mut led, true, true, &mut queue), 60_000);
    assert!(!led.state());
    led = BlueLed::init_on();
    assert_eq!(blue_led_blink(&mut led, false, false, &mut queue), 60_000);
    assert!(!led.state());
    assert!(queue.is_empty());
}

#[test]
fn fault_display_rests_while_nothing_is_loaded_and_no_code_waits() {
    assert_eq!(DISPLAY_IDLE_DELAY, 500);
    let mut led = RedLed::init_off();
    let mut active = true;
    let mut buffer = [0x11u8; 100];
    let mut queue = FaultCodeQueue::new();
    assert_eq!(
        task_display_error_codes(&mut led, &mut active, 0, &mut buffer, &mut queue),
        Some(500)
    );
    assert!(!active);
    assert!(!led.is_playing());
    assert!(!led.is_on());
    assert_eq!(buffer, [0x11u8; 100]);
}

#[test]
fn fault_display_sleeps_one_tick_per_round_while_at_work() {
    assert_eq!(DISPLAY_TICK_DELAY, 10);
    let mut led = RedLed::init_off();
    let mut active = false;
    let mut buffer = [0u8; 100];
    let mut queue = FaultCodeQueue::new();
    queue.enqueue(5).unwrap();
    queue.enqueue(12).unwrap();
    assert_eq!(
        task_display_error_codes(&mut led, &mut active, 0, &mut buffer, &mut queue),
        Some(10)
    );
    assert!(led.is_playing());
    assert!(!active);
    assert_eq!(
        task_display_error_codes(&mut led, &mut active, 10, &mut buffer, &mut queue),
        Some(10)
    );
    assert!(led.is_on());
}

#[test]
fn fault_display_plays_the_last_code_to_its_end_with_the_queue_empty() {
    let mut led = RedLed::init_off();
    let mut active = false;
    let mut buffer = [0u8; 100];
    let mut queue = FaultCodeQueue::new();
    queue.enqueue(7).unwrap();
    let mut now = 0u32;
    let mut pulses: Vec<u32> = Vec::new();
    let mut lit_for = 0u32;
    let mut rounds = 0;
    loop {
        let delay = task_display_error_codes(&mut led, &mut active, now, &mut buffer, &mut queue)
            .unwrap();
        assert!(queue.is_empty());
        if led.is_on() {
            lit_for += delay;
        } else if lit_for > 0 {
            pulses.push(lit_for);
            lit_for = 0;
        }
        if delay == DISPLAY_IDLE_DELAY {
            break;
        }
        assert_eq!(delay, DISPLAY_TICK_DELAY);
        now += delay;
        rounds += 1;
        assert!(rounds < 10_000);
    }
    // "--...": two dashes, three dots
    assert_eq!(pulses, vec![600, 600, 200, 200, 200]);
    assert!(!led.is_playing());
    assert!(!led.is_on());
}
