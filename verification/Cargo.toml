[package]
name = "cargo-registry"
version = "0.1.0"
edition = "2021"
publish = false

[dependencies]
openssl = "0.10"
rustc-serialize = "0.3"
rand = "0.8"
time = "0.1"
curl = "0.4"
postgres = "0.19"
diesel = { version = "2", features = ["postgres"] }
conduit = "*"
conduit-cookie = "*"
conduit-router = "*"
