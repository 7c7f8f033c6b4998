[package]
name = "todo_auth"
version = "0.1.0"
edition = "2021"
publish = false

[dependencies]
rust-argon2 = "=3.0.0"
jsonwebtoken = { version = "=11.1.0", features = ["rust_crypto"] }
uuid = { version = "=1.27.0", features = ["v4"] }
chrono = "=0.4.45"
serde_json = "=1.0.151"
serde = { version = "=1.0.229", features = ["derive"] }
clap = { version = "=4.6.7", features = ["derive"] }
reqwest = { version = "=0.13.5", default-features = false, features = ["blocking", "json"] }
dirs = "=7.0.0"
inquire = "=0.9.4"
actix-web = { version = "=4.15.0", default-features = false, features = ["macros"] }
futures = "=0.3.34"
