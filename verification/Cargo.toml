[package]
name = "stm32h7_sdmmc"
version = "0.1.0"
edition = "2021"
publish = false

[dependencies]
cortex-m = "0.7"
stm32h7xx-hal = { version = "=0.16.0", features = ["stm32h747cm7"] }
