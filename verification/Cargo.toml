[package]
name = "threadx_glue"
version = "0.1.0"
edition = "2021"
publish = false

[dependencies]
cortex-ar = "=0.3.0"
cortex-m = "=0.7.10"
cortex-m-rt = "=0.7.7"
defmt = "=1.2.0"
defmt-rtt = "=1.3.1"
defmt-semihosting = "=0.4.0"
embedded-hal = "=1.0.0"
nrf52840-hal = "=0.19.0"
panic-probe = { version = "=1.0.0", features = ["print-defmt"] }
semihosting = "=0.1.25"
static_cell = "=2.1.1"
