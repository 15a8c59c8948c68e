[package]
name = "presence_rpc"
version = "0.1.0"
edition = "2021"
publish = false

[dependencies]
discord-rich-presence = "=0.2.5"
serde = { version = "=1.0.229", features = ["derive"] }
once_cell = "=1.21.4"
dotenvy = "=0.15.7"
