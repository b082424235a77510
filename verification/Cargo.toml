[package]
name = "spoot"
version = "0.1.0"
edition = "2021"
publish = false

[dependencies]
anyhow = "*"
crates-io = "=0.40.19"
curl = "*"
directories = "*"
eframe = { version = "*", default-features = false, features = ["glow", "x11"] }
egui = "*"
evalexpr = "*"
open = "*"
serde = { version = "*", features = ["derive"] }
toml = "*"
