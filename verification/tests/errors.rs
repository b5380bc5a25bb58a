use uart_usb_bridge::errors::{
    DeviceError, DmaError, InitError, LedError, RingBufferError, UsartError, UsbError,
};

#[test]
fn codes_are_ordinals_within_each_taxonomy() {
    assert_eq!(RingBufferError::BufferOverflow.code(), 0);
    assert_eq!(RingBufferError::InsufficientSpace.code(), 1);
    assert_eq!(RingBufferError::BufferEmpty.code(), 2);
    assert_eq!(LedError::SetStateError.code(), 0);
    assert_eq!(LedError::ReadStateError.code(), 1);
    assert_eq!(UsartError::DmaError.code(), 0);
    assert_eq!(UsartError::TransferError.code(), 1);
    assert_eq!(UsartError::Timeout.code(), 2);
    assert_eq!(UsartError::NotInitialized.code(), 3);
    assert_eq!(UsartError::BufferOverflow.code(), 4);
    assert_eq!(UsartError::FlagNotSet.code(), 5);
    assert_eq!(UsbError::NotInitialized.code(), 0);
    assert_eq!(UsbError::ReadError.code(), 1);
    assert_eq!(UsbError::WriteError.code(), 2);
    assert_eq!(UsbError::BufferOverflow.code(), 3);
    assert_eq!(UsbError::InitError.code(), 4);
    assert_eq!(UsbError::PollError.code(), 5);
    assert_eq!(DmaError::InitError.code(), 0);
    assert_eq!(DmaError::TransferError.code(), 1);
    assert_eq!(DmaError::RetryLimitExceeded.code(), 2);
    assert_eq!(DmaError::BufferOverflow.code(), 3);
    assert_eq!(DmaError::BufferUnderflow.code(), 4);
    assert_eq!(DmaError::WriteError.code(), 5);
    assert_eq!(DmaError::ReadError.code(), 6);
    assert_eq!(DeviceError::UsbError.code(), 0);
    assert_eq!(DeviceError::DmaError.code(), 1);
    assert_eq!(DeviceError::BufferOverflow.code(), 2);
    assert_eq!(DeviceError::Timeout.code(), 3);
    assert_eq!(DeviceError::LedError.code(), 4);
    assert_eq!(InitError::UsartError.code(), 0);
    assert_eq!(InitError::UsbError.code(), 1);
    assert_eq!(InitError::RccError.code(), 2);
    assert_eq!(InitError::LutError.code(), 3);
}

#[test]
fn codes_of_different_taxonomies_coincide() {
    assert_eq!(UsbError::NotInitialized.code(), DmaError::InitError.code());
    assert_eq!(DeviceError::DmaError.code(), LedError::ReadStateError.code());
}

#[test]
fn descriptions_are_the_messages() {
    assert_eq!(RingBufferError::BufferOverflow.description(), "Ring buffer overflow occurred");
    assert_eq!(RingBufferError::InsufficientSpace.description(), "Insufficient space in ring buffer");
    assert_eq!(RingBufferError::BufferEmpty.description(), "Ring buffer is empty");
    assert_eq!(LedError::SetStateError.description(), "Failed to set LED state");
    assert_eq!(LedError::ReadStateError.description(), "Failed to read LED state");
    assert_eq!(UsartError::DmaError.description(), "DMA error occurred in USART");
    assert_eq!(UsartError::NotInitialized.description(), "USART not initialized");
    assert_eq!(UsartError::FlagNotSet.description(), "USART flag not set");
    assert_eq!(UsbError::NotInitialized.description(), "USB device is not initialized");
    assert_eq!(UsbError::PollError.description(), "Failed to poll USB");
    assert_eq!(DmaError::RetryLimitExceeded.description(), "DMA retry limit exceeded");
    assert_eq!(DmaError::BufferUnderflow.description(), "DMA buffer underflow");
    assert_eq!(DmaError::ReadError.description(), "Failed to read using DMA");
    assert_eq!(DeviceError::UsbError.description(), "USB device error occurred");
    assert_eq!(DeviceError::BufferOverflow.description(), "Device buffer overflow");
    assert_eq!(DeviceError::Timeout.description(), "Operation timed out");
    assert_eq!(InitError::RccError.description(), "RCC initialization error");
    assert_eq!(InitError::LutError.description(), "LUT initialization error");
}

#[test]
fn usb_faults_become_usb_device_faults() {
    for fault in [
        UsbError::NotInitialized,
        UsbError::ReadError,
        UsbError::WriteError,
        UsbError::BufferOverflow,
        UsbError::InitError,
        UsbError::PollError,
    ] {
        assert_eq!(DeviceError::from(fault), DeviceError::UsbError);
    }
}

#[test]
fn dma_and_uart_faults_become_dma_device_faults() {
    for fault in [
        DmaError::InitError,
        DmaError::TransferError,
        DmaError::RetryLimitExceeded,
        DmaError::BufferOverflow,
        DmaError::BufferUnderflow,
        DmaError::WriteError,
        DmaError::ReadError,
    ] {
        assert_eq!(DeviceError::from(fault), DeviceError::DmaError);
    }
    for fault in [
        UsartError::DmaError,
        UsartError::TransferError,
        UsartError::Timeout,
        UsartError::NotInitialized,
        UsartError::BufferOverflow,
        UsartError::FlagNotSet,
    ] {
        assert_eq!(DeviceError::from(fault), DeviceError::DmaError);
    }
}

#[test]
fn led_faults_become_led_device_faults() {
    assert_eq!(DeviceError::from(LedError::SetStateError), DeviceError::LedError);
    assert_eq!(DeviceError::from(LedError::ReadStateError), DeviceError::LedError);
}

#[test]
fn every_ring_buffer_fault_becomes_buffer_overflow() {
    assert_eq!(DeviceError::from(RingBufferError::BufferOverflow), DeviceError::BufferOverflow);
    assert_eq!(DeviceError::from(RingBufferError::InsufficientSpace), DeviceError::BufferOverflow);
    assert_eq!(DeviceError::from(RingBufferError::BufferEmpty), DeviceError::BufferOverflow);
}
