[package]
name = "dyncord"
version = "0.1.0"
edition = "2021"
publish = false

[dependencies]
papaya = "0.2"
emojis = "0.6"
num = "0.4"
twilight-model = "0.16"
twilight-http = { version = "0.16", default-features = false }
thiserror = "2"
serde = { version = "1", features = ["derive"] }
bitcode = { version = "0.6", features = ["derive"] }
