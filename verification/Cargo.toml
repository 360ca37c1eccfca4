[package]
name = "megaverse"
version = "0.1.0"
edition = "2021"
publish = false

[dependencies]
serde_json = "1"
reqwest = { version = "0.12", features = ["json"] }
tokio = { version = "1", features = ["full"] }
dialoguer = "0.11"
dotenv = "0.15"
figlet-rs = "0.1"
