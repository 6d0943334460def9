[package]
name = "pico_motor"
version = "0.1.0"
edition = "2021"
publish = false

[dependencies]
rp-pico = "0.9"
cortex-m = "0.7"
embedded-hal = "1.0"
defmt = "0.3"
defmt-rtt = "0.4"
panic-probe = { version = "0.3", features = ["print-defmt"] }
libm = "0.2"
