[package]
name = "parametric_speaker"
version = "0.1.0"
edition = "2021"
publish = false

[dependencies]
heapless = "0.8"
cortex-m = { version = "0.7", features = ["critical-section-single-core"] }
cortex-m-rt = "0.7"
defmt = "0.3"
defmt-rtt = "0.4"
panic-probe = { version = "0.3", features = ["print-defmt"] }
fugit = "0.3"
stm32f4xx-hal = { version = "*", features = ["stm32f411", "usb_fs"] }
usb-device = "0.3"
usbd-audio = "*"
