[package]
name = "wpaperd"
version = "0.1.0"
edition = "2021"
publish = false

[dependencies]
clap = { version = "=4.6.7", features = ["derive"] }
color-eyre = "=0.6.5"
flexi_logger = "=0.29.8"
hotwatch = "=0.4.6"
log = "=0.4.34"
nix = { version = "=0.29.0", features = ["process"] }
smithay-client-toolkit = { version = "=0.19.2", default-features = false, features = ["calloop"] }
toml = "=0.8.23"
xdg = "=2.5.2"
serde = { version = "=1.0.229", features = ["derive"] }
