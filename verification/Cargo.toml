[package]
name = "tls_cert"
version = "0.1.0"
edition = "2021"
publish = false

[dependencies]
openssl = "0.10"
rand = "0.9"
rcgen = { version = "0.14", features = ["x509-parser"] }
rustls-pki-types = "1"
time = "0.3"
x509-parser = "0.18"
