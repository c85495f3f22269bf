[package]
name = "ln_lib"
version = "0.1.0"
edition = "2021"
publish = false

[dependencies]
scraper = "*"
serde_json = "1"
surf = { version = "2", default-features = false, features = ["h1-client-rustls"] }
tokio = { version = "1", default-features = false, features = ["rt-multi-thread", "macros"] }
clap = { version = "3", features = ["derive"] }
