[package]
name = "blinky"
version = "0.1.0"
edition = "2021"
publish = false

[dependencies]
cortex-m-rt = "*"
defmt = "*"
defmt-rtt = "*"
stm32g4xx-hal = { version = "*", features = ["stm32g474"] }
