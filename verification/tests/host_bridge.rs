use uart_usb_bridge::config::DATA_PACKET_SIZE;
use uart_usb_bridge::errors::{DeviceError, UsbError};
use uart_usb_bridge::peripherals::otg_fs::{EndpointError, OtgFsController, UsbDeviceState};
use uart_usb_bridge::ring_buffer::RingBuffer;
use uart_usb_bridge::task_handlers::otg_fs::{handle_usb, process_rx_buffer, requeue_unsent};

fn configured() -> OtgFsController {
    OtgFsController::new(Some(UsbDeviceState::Configured), true)
}

fn deliver(usb: &mut OtgFsController, packet: &[u8]) -> Result<usize, EndpointError> {
    usb.get_rx_buffer()[..packet.len()].copy_from_slice(packet);
    Ok(packet.len())
}

fn drain(buffer: &mut RingBuffer) -> Vec<u8> {
    let mut out = vec![0u8; 512];
    let n = buffer.pop(&mut out);
    out.truncate(n);
    out
}

#[test]
fn staging_areas_have_the_packet_size() {
    let mut usb = configured();
    assert_eq!(usb.get_rx_buffer().len(), DATA_PACKET_SIZE);
    assert_eq!(usb.get_tx_buffer().len(), 128);
    assert_eq!(usb.get_rx_buffer(), &[0u8; 128]);
}

#[test]
fn only_the_configured_state_counts_as_configured() {
    assert!(configured().is_configured());
    assert!(!OtgFsController::new(Some(UsbDeviceState::Default), true).is_configured());
    assert!(!OtgFsController::new(Some(UsbDeviceState::Addressed), true).is_configured());
    assert!(!OtgFsController::new(Some(UsbDeviceState::Suspend), true).is_configured());
    assert!(!OtgFsController::new(None, true).is_configured());
}

#[test]
fn poll_records_the_state() {
    let mut usb = OtgFsController::new(Some(UsbDeviceState::Default), true);
    assert!(usb.poll(UsbDeviceState::Addressed));
    assert!(!usb.is_configured());
    assert!(usb.poll(UsbDeviceState::Configured));
    assert!(usb.is_configured());
    assert!(usb.poll(UsbDeviceState::Suspend));
    assert!(!usb.is_configured());
}

#[test]
fn poll_without_device_or_endpoint_does_nothing() {
    let mut no_device = OtgFsController::new(None, true);
    assert!(!no_device.poll(UsbDeviceState::Configured));
    assert!(!no_device.is_configured());
    let mut no_serial = OtgFsController::new(Some(UsbDeviceState::Default), false);
    assert!(!no_serial.poll(UsbDeviceState::Configured));
    assert!(!no_serial.is_configured());
}

#[test]
fn read_classifies_the_answer_of_the_endpoint() {
    let mut usb = configured();
    let received = deliver(&mut usb, &[1, 2, 3]);
    assert_eq!(usb.read(received), Ok(Some((&[1u8, 2, 3][..], 3))));
    assert_eq!(usb.read(Ok(0)), Ok(None));
    assert_eq!(usb.read(Err(EndpointError::WouldBlock)), Ok(None));
    for fault in [
        EndpointError::ParseError,
        EndpointError::BufferOverflow,
        EndpointError::EndpointOverflow,
        EndpointError::EndpointMemoryOverflow,
        EndpointError::InvalidEndpoint,
        EndpointError::Unsupported,
        EndpointError::InvalidState,
    ] {
        assert_eq!(usb.read(Err(fault)), Err(UsbError::ReadError));
    }
    let detached = OtgFsController::new(Some(UsbDeviceState::Configured), false);
    assert_eq!(detached.read(Ok(3)), Err(UsbError::NotInitialized));
    assert_eq!(detached.read(Err(EndpointError::WouldBlock)), Err(UsbError::NotInitialized));
}

#[test]
fn write_stages_the_data_and_hands_it_to_the_endpoint() {
    let mut usb = configured();
    let mut seen: Vec<u8> = Vec::new();
    let result = usb.write(&[5, 6, 7], |bytes| {
        seen.extend_from_slice(bytes);
        Ok(bytes.len())
    });
    assert_eq!(result, Ok(3));
    assert_eq!(seen, vec![5, 6, 7]);
    assert_eq!(&usb.get_tx_buffer()[..4], &[5, 6, 7, 0]);
}

#[test]
fn write_maps_every_endpoint_fault_to_a_write_error() {
    let mut usb = configured();
    assert_eq!(usb.write(&[1], |_| Err(EndpointError::WouldBlock)), Err(UsbError::WriteError));
    assert_eq!(usb.write(&[1], |_| Err(EndpointError::InvalidState)), Err(UsbError::WriteError));
}

#[test]
fn write_without_endpoint_or_with_too_much_does_not_call_the_endpoint() {
    let mut detached = OtgFsController::new(Some(UsbDeviceState::Configured), false);
    let mut called = false;
    let result = detached.write(&[1, 2], |bytes| {
        called = true;
        Ok(bytes.len())
    });
    assert_eq!(result, Err(UsbError::NotInitialized));
    assert!(!called);

    let mut usb = configured();
    let result = usb.write(&[0u8; 129], |bytes| {
        called = true;
        Ok(bytes.len())
    });
    assert_eq!(result, Err(UsbError::BufferOverflow));
    assert!(!called);
    assert_eq!(usb.get_tx_buffer(), &[0u8; 128]);
    assert_eq!(usb.write(&[0xABu8; 128], |bytes| Ok(bytes.len())), Ok(128));
}

#[test]
fn inbound_packet_is_admitted_whole() {
    let mut usb = configured();
    let mut tx = RingBuffer::new();
    tx.push(&[9]).unwrap();
    let received = deliver(&mut usb, &[1, 2, 3, 4]);
    assert_eq!(handle_usb(&mut usb, received, &mut tx), Ok(4));
    assert_eq!(drain(&mut tx), vec![9, 1, 2, 3, 4]);
}

#[test]
fn inbound_does_nothing_before_enumeration() {
    for state in [UsbDeviceState::Default, UsbDeviceState::Addressed, UsbDeviceState::Suspend] {
        let mut usb = OtgFsController::new(Some(state), true);
        let mut tx = RingBuffer::new();
        let received = deliver(&mut usb, &[1, 2, 3]);
        assert_eq!(handle_usb(&mut usb, received, &mut tx), Ok(0));
        assert!(tx.is_empty());
        assert_eq!(handle_usb(&mut usb, Err(EndpointError::InvalidState), &mut tx), Ok(0));
    }
}

#[test]
fn inbound_with_nothing_to_read_gives_zero() {
    let mut usb = configured();
    let mut tx = RingBuffer::new();
    assert_eq!(handle_usb(&mut usb, Err(EndpointError::WouldBlock), &mut tx), Ok(0));
    assert_eq!(handle_usb(&mut usb, Ok(0), &mut tx), Ok(0));
    assert!(tx.is_empty());
}

#[test]
fn inbound_endpoint_fault_is_a_usb_device_fault() {
    let mut usb = configured();
    let mut tx = RingBuffer::new();
    assert_eq!(
        handle_usb(&mut usb, Err(EndpointError::ParseError), &mut tx),
        Err(DeviceError::UsbError)
    );
    assert!(tx.is_empty());
    let mut detached = OtgFsController::new(Some(UsbDeviceState::Configured), false);
    assert_eq!(handle_usb(&mut detached, Ok(4), &mut tx), Err(DeviceError::UsbError));
    assert!(tx.is_empty());
}

#[test]
fn packet_of_128_bytes_is_rejected_whole_when_100_bytes_are_free() {
    let mut usb = configured();
    let mut tx = RingBuffer::new();
    tx.push(&[0x11u8; 412]).unwrap();
    assert_eq!(tx.available_space(), 100);
    let received = deliver(&mut usb, &[0x22u8; 128]);
    assert_eq!(handle_usb(&mut usb, received, &mut tx), Err(DeviceError::UsbError));
    assert_eq!(tx.len(), 412);
    assert_eq!(tx.available_space(), 100);
    assert_eq!(drain(&mut tx), vec![0x11u8; 412]);
}

#[test]
fn packet_that_fills_the_buffer_exactly_is_admitted() {
    let mut usb = configured();
    let mut tx = RingBuffer::new();
    tx.push(&[0x11u8; 384]).unwrap();
    let received = deliver(&mut usb, &[0x22u8; 128]);
    assert_eq!(handle_usb(&mut usb, received, &mut tx), Ok(128));
    assert_eq!(tx.available_space(), 0);
}

#[test]
fn outbound_with_empty_buffer_does_not_call_the_endpoint() {
    let mut usb = configured();
    let mut rx = RingBuffer::new();
    let mut called = false;
    let result = process_rx_buffer(&mut usb, &mut rx, |bytes| {
        called = true;
        Ok(bytes.len())
    });
    assert_eq!(result, Ok(0));
    assert!(!called);
}

#[test]
fn outbound_writes_the_drained_packet() {
    let mut usb = configured();
    let mut rx = RingBuffer::new();
    rx.push(&[1, 2, 3, 4, 5]).unwrap();
    let mut seen: Vec<u8> = Vec::new();
    let result = process_rx_buffer(&mut usb, &mut rx, |bytes| {
        seen.extend_from_slice(bytes);
        Ok(bytes.len())
    });
    assert_eq!(result, Ok(5));
    assert_eq!(seen, vec![1, 2, 3, 4, 5]);
    assert!(rx.is_empty());
}

#[test]
fn outbound_drains_at_most_one_packet() {
    let mut usb = configured();
    let mut rx = RingBuffer::new();
    let data: Vec<u8> = (0..200u8).collect();
    rx.push(&data).unwrap();
    let mut seen: Vec<u8> = Vec::new();
    let result = process_rx_buffer(&mut usb, &mut rx, |bytes| {
        seen.extend_from_slice(bytes);
        Ok(bytes.len())
    });
    assert_eq!(result, Ok(128));
    assert_eq!(seen, data[..128].to_vec());
    assert_eq!(drain(&mut rx), data[128..].to_vec());
}

#[test]
fn partial_write_of_6_out_of_10_leaves_4_for_the_next_drain() {
    let mut usb = configured();
    let mut rx = RingBuffer::new();
    rx.push(&[1, 2, 3, 4, 5, 6, 7, 8, 9, 10]).unwrap();
    let result = process_rx_buffer(&mut usb, &mut rx, |_| Ok(6));
    assert_eq!(result, Ok(6));
    assert_eq!(rx.len(), 4);
    let mut seen: Vec<u8> = Vec::new();
    let next = process_rx_buffer(&mut usb, &mut rx, |bytes| {
        seen.extend_from_slice(bytes);
        Ok(bytes.len())
    });
    assert_eq!(next, Ok(4));
    assert_eq!(seen, vec![7, 8, 9, 10]);
    assert!(rx.is_empty());
}

#[test]
fn unsent_remainder_goes_behind_what_the_buffer_still_holds() {
    let mut usb = configured();
    let mut rx = RingBuffer::new();
    let data: Vec<u8> = (0..130u8).collect();
    rx.push(&data).unwrap();
    let result = process_rx_buffer(&mut usb, &mut rx, |_| Ok(100));
    assert_eq!(result, Ok(100));
    let mut expected = vec![128u8, 129];
    expected.extend(100..128u8);
    assert_eq!(drain(&mut rx), expected);
}

#[test]
fn failed_write_loses_the_packet_and_is_a_usb_device_fault() {
    let mut usb = configured();
    let mut rx = RingBuffer::new();
    rx.push(&[1, 2, 3]).unwrap();
    let result = process_rx_buffer(&mut usb, &mut rx, |_| Err(EndpointError::WouldBlock));
    assert_eq!(result, Err(DeviceError::UsbError));
    assert!(rx.is_empty());

    let mut detached = OtgFsController::new(Some(UsbDeviceState::Configured), false);
    rx.push(&[4, 5]).unwrap();
    let result = process_rx_buffer(&mut detached, &mut rx, |bytes| Ok(bytes.len()));
    assert_eq!(result, Err(DeviceError::UsbError));
    assert!(rx.is_empty());
}

#[test]
fn endpoint_that_reports_more_than_it_was_given() {
    let mut usb = configured();
    let mut rx = RingBuffer::new();
    rx.push(&[1, 2, 3]).unwrap();
    assert_eq!(process_rx_buffer(&mut usb, &mut rx, |_| Ok(50)), Ok(50));
    assert!(rx.is_empty());
}

#[test]
fn requeue_puts_the_unsent_bytes_at_the_tail() {
    let mut rx = RingBuffer::new();
    rx.push(&[100, 101]).unwrap();
    let packet = [1u8, 2, 3, 4, 5, 6, 7, 8, 9, 10];
    assert_eq!(requeue_unsent(&mut rx, &packet, Ok(6)), Ok(6));
    assert_eq!(drain(&mut rx), vec![100, 101, 7, 8, 9, 10]);
}

#[test]
fn requeue_after_a_full_or_failed_write_changes_nothing() {
    let mut rx = RingBuffer::new();
    rx.push(&[100]).unwrap();
    let packet = [1u8, 2, 3];
    assert_eq!(requeue_unsent(&mut rx, &packet, Ok(3)), Ok(3));
    assert_eq!(requeue_unsent(&mut rx, &packet, Ok(0)), Ok(0));
    assert_eq!(rx.len(), 4);
    assert_eq!(
        requeue_unsent(&mut rx, &packet, Err(UsbError::WriteError)),
        Err(DeviceError::UsbError)
    );
    assert_eq!(drain(&mut rx), vec![100, 1, 2, 3]);
}

#[test]
fn requeue_without_room_is_a_usb_device_fault() {
    let mut rx = RingBuffer::new();
    rx.push(&[0u8; 510]).unwrap();
    let packet = [1u8, 2, 3, 4, 5];
    assert_eq!(requeue_unsent(&mut rx, &packet, Ok(2)), Err(DeviceError::UsbError));
    assert_eq!(rx.len(), 510);
    assert_eq!(requeue_unsent(&mut rx, &packet, Ok(3)), Ok(3));
    assert_eq!(rx.len(), 512);
}
