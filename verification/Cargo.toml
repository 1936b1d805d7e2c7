[package]
name = "dynamic_entry_bot"
version = "0.1.0"
edition = "2021"
publish = false

[dependencies]
serde = { version = "1", features = ["derive"] }
serde_yaml = "0.8"
libc = "0.2"
discord = "0.8"
serenity = { version = "0.8", features = ["voice"] }
