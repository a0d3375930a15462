[package]
name = "chain_swap"
version = "0.1.0"
edition = "2021"
publish = false

[dependencies]
anyhow = "1"
clap = { version = "4", features = ["derive"] }
futures-util = "0.3"
hex = "0.4"
log = "0.4"
lwk_wollet = "0.8.0"
qr2term = "0.3"
rustyline = { version = "13", features = ["derive"] }
serde = { version = "1", features = ["derive"] }
serde_json = "1"
tokio = { version = "1", features = ["macros", "rt", "sync", "time"] }
