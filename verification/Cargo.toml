[package]
name = "mudcrab"
version = "0.1.0"
edition = "2021"
publish = false

[dependencies]
bytes = "1"
legion = "0.4"
mio = { version = "0.7", features = ["os-poll", "net"] }
rayon = "1"
rustls = "0.19"
serde = { version = "1", features = ["derive"] }
serde_derive = "1"
serde_json = "1"
slab = "0.4"
