[package]
name = "typist"
version = "0.1.0"
edition = "2021"
publish = false

[dependencies]
anyhow = "1"
arboard = { version = "3", default-features = false }
chrono = "=0.4.45"
crossterm = { version = "0.28", features = ["event-stream"] }
dotenvy = "0.15"
enigo = { version = "0.2", default-features = false, features = ["x11rb"] }
futures = "0.3"
hound = "=3.5.1"
minimp3 = "=0.5.2"
oxiwhisper = "*"
ratatui = "0.29"
reqwest = { version = "0.12", default-features = false, features = ["json", "multipart", "rustls-tls"] }
serde = { version = "1", features = ["derive"] }
serde_json = "=1.0.154"
tokio = { version = "1", features = ["rt-multi-thread", "macros", "sync", "time"] }
tracing = "0.1"
tracing-subscriber = { version = "0.3", features = ["env-filter"] }
