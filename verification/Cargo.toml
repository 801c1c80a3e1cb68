[package]
name = "the_tweed"
version = "2.0.0"
edition = "2021"
publish = false

[dependencies]
async-std = "=1.13.2"
atomic_float = "=1.1.0"
egui = { version = "=0.34.3", default-features = false }
image = { version = "=0.25.10", default-features = false, features = ["png"] }
nih_plug_core = "=0.1.2"
nih_plug_egui = "=0.1.2"
rfd = { version = "=0.15.4", default-features = false, features = ["xdg-portal", "async-std"] }
