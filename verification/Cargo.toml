[package]
name = "clipshare"
version = "0.1.0"
edition = "2021"
publish = false

[dependencies]
rand = "=0.8.8"
rocket = { version = "=0.5.2", features = ["json"] }
serde = { version = "=1.0.229", features = ["derive"] }
tokio = { version = "=1.54.1", features = ["rt-multi-thread", "time", "sync"] }
structopt = "=0.3.26"
dotenv = "=0.15.0"
derive_more = "=0.99.20"
