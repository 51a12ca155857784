[package]
name = "daisy_looper"
version = "0.1.0"
edition = "2021"
publish = false

[dependencies]
cortex-m = "=0.6.7"
cortex-m-rtic = "=0.5.9"
libdaisy = "=0.1.0"
log = "=0.4.34"
stm32h7xx-hal = "=0.9.0"
