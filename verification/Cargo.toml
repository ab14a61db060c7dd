[package]
name = "arb_detector"
version = "0.1.0"
edition = "2021"
publish = false

[dependencies]
chrono = { version = "*", default-features = false, features = ["clock"] }
dotenvy = "*"
ethers = { version = "*", default-features = false }
eyre = "*"
rusqlite = { version = "*", features = ["bundled"] }
serde_json = "*"
tokio = { version = "*", features = ["macros", "rt-multi-thread", "time"] }
