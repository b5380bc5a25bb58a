//! Verified core of a USB-to-UART bridge: fixed-capacity byte buffers, the
//! DMA link logic with bounded fault recovery, the USB packet bridge, the
//! bounded fault-code queue and the optical fault-code annunciator.

pub mod config;
pub mod error_queue;
pub mod errors;
pub mod fixed_vec;
pub mod peripherals;
pub mod ring_buffer;
pub mod task_handlers;
pub mod tasks;
pub mod utils;
