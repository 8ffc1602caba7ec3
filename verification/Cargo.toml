[package]
name = "poz"
version = "0.1.0"
edition = "2021"
publish = false

[dependencies]
anyhow = "=1.0.104"
console-subscriber = { version = "*", default-features = false }
ctrlc = "=3.5.2"
http = "=0.2.12"
tokio = { version = "=1.54.1", features = ["macros", "rt-multi-thread", "sync"] }
tracing = "=0.1.44"
tracing-subscriber = { version = "=0.3.23", features = ["env-filter"] }
twilight-cache-inmemory = "=0.15.4"
twilight-gateway = "=0.15.4"
twilight-http = { version = "=0.15.4", default-features = false, features = ["rustls-native-roots"] }
twilight-model = "=0.15.4"
twilight-standby = "=0.15.4"
twilight-util = { version = "=0.15.4", features = ["builder"] }
