[package]
name = "rusty_voucher"
version = "0.1.0"
edition = "2021"
publish = false

[dependencies]
chrono = "*"
rand = "*"
serde = { version = "*", features = ["derive"] }
serde_qs = "*"
tokio = { version = "*", features = ["macros", "rt-multi-thread"] }
reqwest = { version = "*", default-features = false, features = ["json"] }
