[package]
name = "mastodon_mirror"
version = "0.1.0"
edition = "2021"
publish = false

[dependencies]
serde = { version = "1", features = ["derive"] }
serde_json = "1"
serde_yaml = "0.9"
serde_urlencoded = "0.7"
reqwest = { version = "0.11", default-features = false, features = ["json", "multipart"] }
bytes = "1"
tokio = { version = "1", features = ["macros", "rt-multi-thread"] }
fantoccini = { version = "0.19", default-features = false }
