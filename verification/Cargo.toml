[package]
name = "omarchy-power-policy"
version = "0.1.0"
edition = "2021"
publish = false

[dependencies]
futures-util = { version = "0.3", default-features = false }
tokio = { version = "1", features = ["macros", "rt", "signal", "time"] }
zbus = { version = "5", default-features = false, features = ["tokio"] }
