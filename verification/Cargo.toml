[package]
name = "message_editor"
version = "0.1.0"
edition = "2021"
publish = false

[dependencies]
anyhow = "=1.0.104"
dashmap = "=5.5.3"
dotenvy = "=0.15.7"
futures-util = "=0.3.34"
thiserror = "=1.0.69"
tokio = { version = "=1.54.1", features = ["macros", "rt-multi-thread", "sync"] }
twilight-cache-inmemory = { version = "=0.11.1", features = ["permission-calculator"] }
twilight-gateway = "=0.11.1"
twilight-http = "=0.11.1"
twilight-interactions = "=0.11.0"
twilight-model = "=0.11.3"
twilight-util = { version = "=0.11.1", features = ["builder"] }
twilight-webhook = "=0.11.5"
