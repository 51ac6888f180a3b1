[package]
name = "music_block"
version = "0.1.0"
edition = "2021"
publish = false

[dependencies]
chan = "0.1"
dbus = "0.6"
serde = { version = "1", features = ["derive"] }
uuid = { version = "0.6", features = ["v4"] }
