[package]
name = "mooneye_gb"
version = "0.1.0"
edition = "2021"
publish = false

[dependencies]
crc = "1"
arrayvec = "0.5"
app_dirs = "1"
log = "0.4"
serde = "1"
serde_derive = "1"

[dev-dependencies]
quickcheck = "0.9"
