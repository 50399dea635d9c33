[package]
name = "org_roam_protocol_installer"
version = "0.1.0"
edition = "2021"
publish = false

[dependencies]
clap = "*"
dirs = "*"
tempfile = "*"
