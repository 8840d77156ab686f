[package]
name = "synd_term"
version = "0.1.0"
edition = "2021"
publish = false

[dependencies]
nucleo = "=0.5.0"
rand = "=0.9.5"
directories = "=6.0.0"
serde = { version = "=1.0.229", features = ["derive"] }
serde_json = "=1.0.154"
toml = "=0.8.23"
clap = { version = "=4.6.7", features = ["derive", "env"] }
crossterm = "=0.28.1"
url = { version = "=2.5.8", features = ["serde"] }
thiserror = "=2.0.21"
anyhow = "=1.0.104"
itertools = "=0.14.0"
open = "=5.4.5"
edit = "=0.1.5"
tokio = { version = "=1.54.1", features = ["rt-multi-thread", "macros", "time", "sync"] }
futures-util = "=0.3.34"
either = "=1.19.0"
reqwest = { version = "0.12", default-features = false, features = ["json"] }

[dev-dependencies]
