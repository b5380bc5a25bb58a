//! The peripherals as the handlers see them: plain state that the hardware
//! driver mirrors to and from the registers.

pub mod blue_led;
pub mod otg_fs;
pub mod red_led;
pub mod traits;
pub mod usart_6;
