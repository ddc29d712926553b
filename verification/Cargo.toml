[package]
name = "disco_display"
version = "0.1.0"
edition = "2021"
publish = false

[dependencies]
embedded-graphics = "0.8"
stm32f7xx-hal = { version = "*", features = ["stm32f746"] }
cortex-m = "0.7"
cortex-m-rt = "0.7"
defmt = "*"
defmt-rtt = "*"
panic-probe = { version = "*", features = ["print-defmt"] }
semihosting = "*"
