[package]
name = "doi"
version = "0.1.0"
edition = "2021"
publish = false

[dependencies]
async-trait = "0.1"
chrono = { version = "0.4", features = ["serde"] }
governor = "*"
http = "1"
httpdate = "1"
regex = "1"
reqwest = { version = "0.12", default-features = false, features = ["json"] }
reqwest-middleware = "0.4"
reqwest-retry = "0.7"
serde = { version = "1", features = ["derive"] }
serde_json = "1"
serde_path_to_error = "0.1"
snafu = "0.8"
thiserror = "1"
tokio = { version = "1", features = ["sync"] }
