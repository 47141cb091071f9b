[package]
name = "stm32_lora_disco"
version = "0.1.0"
edition = "2021"
publish = false

[dependencies]
stm32l0xx-hal = { version = "=0.6.2", features = ["stm32l0x2"] }
embedded-hal = "=0.2.7"
nb = "=0.1.3"
cortex-m = "=0.6.7"
