[package]
name = "stm32_lessons"
version = "0.1.0"
edition = "2021"
publish = false

[dependencies]
itoa = "=1.0.18"
stm32f4xx-hal = { version = "0.16", features = ["stm32f411", "rt"] }
cortex-m = "=0.7.7"
cortex-m-rt = "=0.7.7"
rtt-target = "=0.4.0"
embedded-hal = "=0.2.7"
rtic = { version = "=2.3.0", features = ["thumbv7-backend"] }
