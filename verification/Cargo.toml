[package]
name = "omarchy_quickshare"
version = "0.1.0"
edition = "2021"
publish = false

[dependencies]
toml_edit = "=0.22.27"
rustix = { version = "=1.1.6", features = ["time", "fs"] }
