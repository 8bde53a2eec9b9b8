[package]
name = "card"
version = "0.1.0"
edition = "2021"
publish = false

[dependencies]
open = "*"
reqwest = { version = "0.11", default-features = false, features = ["json", "rustls-tls"] }
rpassword = "*"
serde_json = "1"
structopt = "0.3"
tokio = { version = "1", features = ["macros", "rt-multi-thread"] }
url = "2"
