[package]
name = "schemas"
version = "0.1.0"
edition = "2021"
publish = false

[dependencies]
digest = "0.10"
elliptic-curve = "0.13"
k256 = { version = "0.13", features = ["arithmetic", "sha256"] }
p256 = { version = "0.13", features = ["arithmetic"] }
rand_core = { version = "0.6", features = ["getrandom"] }
subtle = "2"
