[package]
name = "cxd56"
version = "0.1.0"
edition = "2021"
publish = false

[dependencies]
anyhow = "=1.0.104"
cortex-m = "=0.7.10"
critical-section = "=1.2.0"
defmt-decoder = "=1.2.0"
embedded-hal = "=1.0.0"
fugit = "=0.3.9"
lis2mdl-rs = { version = "=2.1.0", features = ["blocking"] }
log = "=0.4.35"
lps22hh-rs = { version = "=2.1.0", features = ["blocking"] }
lsm6dsox = "=2.1.0"
serialport = { version = "=4.10.1", default-features = false }
st-mems-bus = "=2.0.1"
thiserror = "=2.0.21"
