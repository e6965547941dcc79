[package]
name = "unai"
version = "0.1.0"
edition = "2021"
publish = false

[dependencies]
anstyle = "=1.0.14"
async-openai = { version = "=0.43.0", features = ["chat-completion"] }
bpaf = { version = "=0.9.28", features = ["derive"] }
frankenstein = { version = "=0.52.1", features = ["client-reqwest"] }
log = "=0.4.35"
serde = { version = "=1.0.229", features = ["derive"] }
simple_logger = "=5.2.0"
telegram-markdown-v2 = "=0.2.2"
tokio = { version = "=1.54.1", features = ["rt", "macros", "sync", "time", "signal", "io-std", "io-util"] }
toml = "=1.1.8"
