[package]
name = "gd_specs"
version = "0.1.0"
edition = "2021"
publish = false

[dependencies]
specs = "0.17"
crossbeam = "0.8"
log = "0.4"
once_cell = "1"
gdnative = "0.9.3"
flexi_logger = "0.17"
rapier2d = "0.11"
specs-derive = "0.4"
