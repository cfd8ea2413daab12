[package]
name = "toolboot"
version = "0.1.0"
edition = "2021"
publish = false

[dependencies]
async-process = "*"
inquire = "*"
reqwest = { version = "*", default-features = false, features = ["blocking", "rustls-tls"] }
tokio = { version = "*", default-features = false, features = ["macros", "rt-multi-thread"] }
zip-extract = "*"
