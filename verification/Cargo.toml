[package]
name = "sdr_remote"
version = "0.1.0"
edition = "2021"
publish = false

[dependencies]
log = "0.4"
mdns-sd = "*"
rubato = "0.16"
rustfft = "6"
