[package]
name = "moda"
version = "0.1.0"
edition = "2021"
publish = false

[dependencies]
zip = { version = "*", default-features = false, features = ["deflate"] }
serde = { version = "1", features = ["derive"] }
toml = "*"
dirs = "*"
reqwest = { version = "0.12", default-features = false, features = ["blocking", "json", "rustls-tls"] }
unrar = "*"
log = "0.4"
env_logger = { version = "*", default-features = false }
log-panics = "*"
tokio = { version = "1", features = ["rt-multi-thread"] }
turso = { version = "*", default-features = false }
