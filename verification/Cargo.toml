[package]
name = "shinydisc"
version = "0.1.0"
edition = "2021"
publish = false

[dependencies]
jiff = "0.2"
reqwest = { version = "0.12", features = ["blocking", "json", "cookies"] }
reqwest_cookie_store = "0.8"
serde = { version = "1", features = ["derive"] }
serde_json = "1"
