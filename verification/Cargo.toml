[package]
name = "seventy"
version = "0.1.0"
edition = "2021"
publish = false

[dependencies]
card-validate = "=2.4.0"
proc-macro2 = "=1.0.107"
quote = "=1.0.47"
regex = "=1.13.1"
syn = { version = "=2.0.119", features = ["full"] }
url = "=2.5.8"

[dev-dependencies]
serde = "=1.0.229"
serde_json = "1"
