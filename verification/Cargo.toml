[package]
name = "asr"
version = "0.1.0"
edition = "2021"
publish = false

[dependencies]
clap = { version = "4", features = ["derive"] }
futures-util = "0.3"
reqwest = { version = "0.12", default-features = false, features = ["json", "stream"] }
rmcp = { version = "*", default-features = false, features = ["server", "transport-io"] }
rustix = { version = "1", features = ["fs", "process"] }
rustls = { version = "0.23", default-features = false, features = ["std"] }
rustls-pemfile = "2"
schemars = "1"
serde = { version = "1", features = ["derive"] }
serde_json = "1"
sha2 = "0.10"
thiserror = "2"
tokio = { version = "1", features = ["fs", "io-std", "io-util", "macros", "net", "process", "rt-multi-thread", "signal", "sync", "time"] }
tokio-util = { version = "0.7", features = ["codec", "rt"] }
url = "2"
uuid = { version = "1", features = ["v4"] }
