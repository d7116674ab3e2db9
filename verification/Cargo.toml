[package]
name = "x2_feed"
version = "0.1.0"
edition = "2021"
publish = false

[dependencies]
stepgen = "*"
cortex-m = "0.7"
cortex-m-rtic = "1.1"
stm32f1 = { version = "0.14", features = ["stm32f103"] }
stm32f1xx-hal = { version = "0.9", features = ["stm32f103", "medium"] }
lcd = "*"
