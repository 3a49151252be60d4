[package]
name = "catj"
version = "0.1.0"
edition = "2021"
publish = false

[dependencies]
nix = "0.26"
cgroups-rs = "0.3"
clap = { version = "4", features = ["derive"] }
flexi_logger = "0.25"
chrono = "0.4"
log = "0.4"
libc-stdhandle = "0.1"
tempfile = "3"
