[package]
name = "netixfs"
version = "0.1.0"
edition = "2021"
publish = false

[dependencies]
axum = "0.8"
bytes = "1"
bytesize = { version = "2", features = ["serde"] }
clap = { version = "4", features = ["cargo", "env"] }
eyre = "0.6"
futures = "0.3"
humantime = "2"
serde = { version = "1", features = ["derive"] }
simple-eyre = "0.3"
tokio = { version = "1", features = ["fs", "macros", "net", "rt-multi-thread"] }
tokio-util = { version = "0.7", features = ["io"] }
toml = "*"
tower = "0.5"
tower-http = { version = "*", features = ["full"] }
tracing = "0.1"
tracing-subscriber = { version = "0.3", features = ["json"] }
url = { version = "2", features = ["serde"] }

[dev-dependencies]
serde_json = "1"
