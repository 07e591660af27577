[package]
name = "neptis"
version = "0.1.0"
edition = "2021"
publish = false

[dependencies]
base64 = "=0.23.1"
sha2 = "=0.11.0"
uuid = { version = "=1.27.0", features = ["v4"] }
chrono = { version = "=0.4.45", default-features = false, features = ["clock"] }
rand = "=0.10.3"
passwords = "=3.1.18"
totp-rs = "=5.7.2"
aes = "=0.9.3"
cbc = { version = "=0.2.1", features = ["alloc", "block-padding"] }
crossbeam-channel = "=0.5.17"
rustic_core = { version = "=0.13.0", default-features = false }
rustic_backend = { version = "=0.7.0", default-features = false }
nix = { version = "=0.31.3", default-features = false, features = ["fs", "time"] }
xattr = "=1.6.1"
