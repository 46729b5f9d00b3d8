[package]
name = "param_knob"
version = "0.1.0"
edition = "2021"
publish = false

[dependencies]
itertools = "=0.12.1"
lazy_static = "=1.5.1"
parking_lot = "=0.12.5"
nih_plug_egui = "=0.1.2"
nih_plug_core = "=0.1.2"
egui = { version = "=0.34.3", default-features = false }
