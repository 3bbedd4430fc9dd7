[package]
name = "respeaker"
version = "0.1.0"
edition = "2021"
publish = false

[dependencies]
serde = { version = "1", features = ["derive"] }
serde_json = "1"
heapless = "0.8"
postcard = "1"
clap = { version = "4", features = ["derive", "env"] }
log = "0.4"
libc = "0.2"
openssl = "0.10"
serialport = { version = "4", default-features = false }
thiserror = "2"

[dev-dependencies]
tempfile = "3"
