[package]
name = "srs"
version = "0.1.0"
edition = "2021"
publish = false

[dependencies]
midnight-curves = "=0.3.1"
ff = "=0.13.1"
group = "=0.13.0"
blake2 = "=0.10.6"
sha2 = "=0.10.9"
rand_core = { version = "=0.6.4", features = ["getrandom"] }
rand_chacha = "=0.3.1"
drand-verify = "=0.6.2"
serde = { version = "=1.0.229", features = ["derive"] }
ureq = { version = "=2.12.1", features = ["json"] }
