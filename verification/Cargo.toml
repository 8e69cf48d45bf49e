[package]
name = "gsheet"
version = "1.0.0"
edition = "2021"
publish = false

[dependencies]
anyhow = "1"
clap = "3"
google-drive3 = "5"
google-sheets4 = "5"
prettytable-rs = "0.10"
serde_json = "1"
tokio = { version = "1", features = ["macros", "rt-multi-thread"] }
