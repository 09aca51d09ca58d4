[package]
name = "lastfm_presence"
version = "0.1.0"
edition = "2021"
publish = false

[dependencies]
serde = { version = "*", features = ["derive"] }
serde_json = "*"
reqwest = { version = "*", default-features = false }
tokio = { version = "*", features = ["macros", "rt-multi-thread"] }
discord-rich-presence = "*"
dotenv = "*"
uuid = { version = "*", features = ["v4"] }
