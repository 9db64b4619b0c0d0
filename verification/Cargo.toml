[package]
name = "cookie_jar"
version = "0.1.0"
edition = "2021"
publish = false

[dependencies]
anyhow = "1"
chrono = "0.4"
colored = "*"
crossterm = "*"
dialoguer = "*"
dotenvy = "0.15"
libsql = "*"
tokio = { version = "1", features = ["macros", "rt-multi-thread"] }
