[package]
name = "uart_usb_bridge"
version = "0.1.0"
edition = "2021"
publish = false

[dependencies]
heapless = "0.8"
cortex-m = { version = "0.7", features = ["critical-section-single-core"] }
cortex-m-rt = "0.7"
rtic = { version = "2", features = ["thumbv7-backend"] }
rtic-monotonics = { version = "2", features = ["cortex-m-systick"] }
stm32f4xx-hal = { version = "0.22", features = ["stm32f469", "usb_fs"] }
usb-device = "0.3"
usbd-serial = "0.2"
panic-halt = "0.2"
