[package]
name = "manga-tui"
version = "0.1.0"
edition = "2021"
publish = false

[dependencies]
bytes = "=1.12.1"
color-eyre = "=0.6.5"
crossterm = { version = "=0.29.0", features = ["event-stream"] }
futures = "=0.3.34"
image = { version = "=0.25.10", default-features = false, features = ["jpeg", "png"] }
ratatui = "=0.30.2"
ratatui-image = { version = "=1.0.5", default-features = false, features = ["crossterm", "rustix"] }
reqwest = { version = "=0.12.28", default-features = false, features = ["json", "rustls-tls"] }
rusqlite = { version = "=0.31.0", features = ["bundled"] }
serde = { version = "=1.0.229", features = ["derive"] }
serde_json = "=1.0.154"
tokio = { version = "=1.54.1", features = ["macros", "rt-multi-thread", "sync", "time"] }
