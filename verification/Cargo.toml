[package]
name = "dclone_tracker"
version = "0.1.0"
edition = "2021"
publish = false

[dependencies]
anyhow = "1"
argh = "0.1"
libnotify = "1"
log = "0.4"
reqwest = { version = "0.11", features = ["json"] }
serde = { version = "1", features = ["derive"] }
simple_logger = "*"
tokio = { version = "1", features = ["macros", "rt", "signal", "time"] }
