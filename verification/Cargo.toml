[package]
name = "i2a"
version = "1.0.0"
edition = "2021"
publish = false

[dependencies]
bytes = "1"
clap = { version = "4", features = ["derive"] }
colored = "2"
futures-util = "0.3"
reqwest = { version = "0.11", default-features = false, features = ["stream"] }
tokio = { version = "1", features = ["macros", "rt-multi-thread", "time", "net"] }
warp = { version = "0.3", default-features = false }
