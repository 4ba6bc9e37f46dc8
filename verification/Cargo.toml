[package]
name = "datahugger"
version = "0.1.0"
edition = "2021"
publish = false

[dependencies]
url = "=2.5.8"
serde_json = "=1.0.154"
xmltree = { version = "=0.12.0", features = ["attribute-sorted"] }
md-5 = "=0.10.6"
sha2 = "=0.10.9"
digest = "=0.10.7"
hex = "=0.4.3"
mime_guess = "=2.0.5"
reqwest = { version = "=0.12.28", features = ["json", "stream", "native-tls"] }
tokio = { version = "=1.54.1", features = ["rt-multi-thread", "macros", "fs", "io-util"] }
futures-util = "=0.3.34"
indicatif = "=0.18.6"
clap = { version = "=4.6.7", features = ["derive"] }
tracing = "=0.1.44"
tracing-subscriber = { version = "=0.3.23", features = ["env-filter"] }
bytes = "=1.12.1"

[dev-dependencies]
xml = "=1.4.0"
