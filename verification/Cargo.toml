[package]
name = "undetected_chromedriver"
version = "0.1.0"
edition = "2021"
publish = false

[dependencies]
rand = "*"
serde_json = "*"
zip = { version = "*", default-features = false, features = ["deflate"] }
tokio = { version = "*", features = ["rt", "time", "macros"] }
reqwest = { version = "*", default-features = false }
thirtyfour = "*"
async-trait = "*"
tracing = "*"
