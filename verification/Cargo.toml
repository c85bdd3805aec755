[package]
name = "rpg_chat_sandbox"
version = "0.1.0"
edition = "2021"
publish = false

[dependencies]
macroquad = "=0.4.16"
rig-core = "=0.32.0"
serde = { version = "=1.0.229", features = ["derive"] }
