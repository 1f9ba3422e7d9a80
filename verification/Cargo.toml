[package]
name = "process_control_simulator"
version = "0.1.0"
edition = "2021"
publish = false

[dependencies]
uom = "0.36"
csv = "1"
thiserror = "1"

[dev-dependencies]
approx = "0.5"
