//! Build-time capacities and clock settings.

use vstd::prelude::*;

verus! {

/// Size in bytes of each hardware DMA transfer buffer.
pub const DMA_BUFFER_LEN: usize = 128;

/// Size in words of the USB endpoint memory.
pub const OTG_FS_BUFFER_LEN: usize = 1024;

/// Capacity in bytes of each ring buffer.
pub const RING_BUFFER_LEN: usize = 512;

/// Largest USB packet, in bytes, that the bridge moves in one step.
pub const DATA_PACKET_SIZE: usize = 128;

/// Baud rate of the UART link.
pub const USART6_BAUD_RATE: u32 = 115200;

/// Frequency of the external oscillator, in Hz.
pub const HSE: u32 = 8_000_000;

/// System clock frequency, in Hz.
pub const SYSCLK: u32 = 180_000_000;

/// APB1 peripheral clock frequency, in Hz.
pub const PCLK1: u32 = 45_000_000;

/// APB2 peripheral clock frequency, in Hz.
pub const PCLK2: u32 = 90_000_000;

/// Longest optical sequence, in symbols, that the annunciator holds.
pub const MAX_MORSE_LENGTH: usize = 100;

} // verus!
