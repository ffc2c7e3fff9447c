[package]
name = "nexus_vft"
version = "0.1.0"
edition = "2021"
publish = false

[dependencies]
gstd = "*"
sails-rs = "*"
