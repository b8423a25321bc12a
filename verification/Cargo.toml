[package]
name = "omni"
version = "0.1.0"
edition = "2021"
publish = false

[dependencies]
anyhow = "1"
base64 = "0.21"
clap = { version = "4", features = ["derive"] }
colored = "2"
dotenv = "0.15"
figlet-rs = "0.1"
regex = "1"
reqwest = { version = "0.11", features = ["json", "blocking"] }
serde = { version = "1", features = ["derive"] }
serde_json = "1"
tempfile = "3"
tokio = { version = "1", features = ["macros", "rt-multi-thread"] }
zip = { version = "0.6", default-features = false, features = ["deflate"] }
