[package]
name = "devcgroup"
version = "0.1.0"
edition = "2021"
publish = false

[dependencies]
anyhow = "*"
log = "*"
nix = { version = "*", features = ["process"] }
oci-spec = "*"
