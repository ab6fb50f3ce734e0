[package]
name = "trackerconqueror"
version = "0.1.0"
edition = "2021"
publish = false

[dependencies]
bincode = "=1.3.3"
colored = "=2.2.0"
csv = "=1.4.0"
message-io = "=0.14.8"
serde = { version = "=1.0.229", features = ["derive"] }
trackermeta = "=0.4.3"
