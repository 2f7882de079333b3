[package]
name = "billplz"
version = "0.1.0"
edition = "2021"
publish = false

[dependencies]
serde_json = "1"
serde = { version = "1", features = ["derive"] }
reqwest = { version = "0.12", default-features = false, features = ["json", "rustls-tls"] }
tokio = { version = "1", features = ["macros", "rt-multi-thread", "io-std"] }
clap = { version = "4", features = ["derive"] }
dirs = "5"
toml = "0.8"
thiserror = "1"
rmcp = { version = "*", features = ["server", "macros", "transport-io"] }
schemars = "*"
