[package]
name = "channel_bridge"
version = "0.1.0"
edition = "2021"
publish = false

[dependencies]
anyhow = "=1.0.104"
tokio = { version = "=1.54.1", default-features = false, features = ["rt", "sync"] }
tracing = { version = "=0.1.44", default-features = false }
twilight-cache-inmemory = "=0.15.4"
twilight-http = { version = "=0.15.4", default-features = false }
twilight-model = "=0.15.4"
twilight-validate = "=0.15.3"
weechat = { version = "=0.4.0", features = ["async"] }

[dev-dependencies]
serde_json = "=1.0.154"
