//! The handlers that the scheduler's tasks and interrupts call.

pub mod blue_led;
pub mod dma2;
pub mod error_handlers;
pub mod otg_fs;
pub mod red_led_handler;
