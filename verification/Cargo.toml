[package]
name = "sigma_racer_efi"
version = "0.1.0"
edition = "2021"
publish = false

[dependencies]
defmt = "=1.2.0"
embassy-executor = { version = "=0.9.1", features = ["defmt"] }
embassy-stm32 = { version = "=0.6.0", features = ["stm32f767vi", "single-bank", "time-driver-any", "exti", "memory-x", "defmt"] }
embassy-sync = "=0.8.0"
embassy-time = { version = "=0.5.1", features = ["defmt", "tick-hz-1_000_000"] }
embedded-alloc = "=0.7.0"
stm32-metapac = { version = "=21.0.0", features = ["stm32f767vi"] }
