[package]
name = "atra"
version = "0.1.0"
edition = "2021"
publish = false

[dependencies]
regex = "=1.13.1"
indexmap = "=2.14.2"
encoding_rs = "=0.8.44"
chardetng = "=0.1.17"
psl = "=2.1.246"
data-encoding = "=2.11.1"
ubyte = "=0.10.4"
time = { version = "=0.3.55", features = ["serde", "serde-human-readable"] }
serde = { version = "=1.0.229", features = ["derive"] }
serde_json = "=1.0.154"
rand = "=0.8.8"
clap = { version = "4", features = ["derive"] }

[dev-dependencies]
bincode = "=1.3.3"
