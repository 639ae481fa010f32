[package]
name = "passvault"
version = "0.1.0"
edition = "2021"
publish = false

[dependencies]
bcrypt = "*"
mongodb = "*"
serde = { version = "1", features = ["derive"] }
tokio = { version = "1", features = ["macros", "rt"] }
