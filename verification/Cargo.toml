[package]
name = "metaquity-runtime"
version = "0.1.0"
edition = "2021"
publish = false

[dependencies]
parity-scale-codec = { version = "=3.7.5", default-features = false, features = ["derive", "max-encoded-len", "std"] }
scale-info = { version = "=2.11.6", default-features = false, features = ["derive", "std"] }
sp-arithmetic = "=29.0.0"
sp-weights = "=37.0.0"
bounded-collections = "=0.3.2"
frame-system = "*"
frame-support = "*"
sp-version = "*"
sp-runtime = "*"
