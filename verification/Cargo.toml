[package]
name = "rollo"
version = "0.1.0"
edition = "2021"
publish = false

[dependencies]
fixed = { version = "=1.31.0", features = ["num-traits"] }
num-traits = "=0.2.19"
queue = "=0.3.1"
time = { version = "=0.3.55", features = ["parsing", "macros"] }
url = "=2.5.8"
embedded-svc = "=0.28.1"
enumset = "=1.1.15"
serde = { version = "=1.0.229", features = ["derive"] }
serde_json = "=1.0.154"
log = "=0.4.35"
tide = "=0.16.0"
async-std = "=1.13.2"
http-types = "=2.12.0"
async-trait = "=0.1.92"
futures = "=0.3.34"
reqwest = { version = "=0.11.27", default-features = false, features = ["blocking"] }
