[package]
name = "aw-watcher-win-vdesktop"
version = "0.1.0"
edition = "2021"
publish = false

[dependencies]
anyhow = "1"
auto-launch = "*"
aw-client-rust = "*"
aw-models = "*"
chrono = "0.4"
clap = { version = "4", features = ["derive"] }
hostname = "*"
serde_json = "1"
tokio = { version = "1", features = ["macros", "rt-multi-thread", "signal", "time"] }
winvd = "*"
