[package]
name = "mchp_gpio_ctl"
version = "0.1.0"
edition = "2021"
publish = false

[dependencies]
clap = { version = "4", features = ["derive"] }
colored = "3"
env_logger = "0.11"
nusb = "0.2"
