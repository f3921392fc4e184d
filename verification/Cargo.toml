[package]
name = "updatehub"
version = "0.1.0"
edition = "2021"
publish = false

[dependencies]
actix-web = { version = "4", default-features = false }
async-std = "1"
async-trait = "0.1"
chrono = { version = "0.4", default-features = false, features = ["clock", "std"] }
compress-tools = "*"
derive_more = { version = "*", features = ["display", "from"] }
easy_process = "*"
serde = { version = "1", features = ["derive"] }
serde_json = "1"
