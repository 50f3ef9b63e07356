[package]
name = "wa_cli"
version = "0.1.0"
edition = "2021"
publish = false

[dependencies]
clap = { version = "*", features = ["derive"] }
serde = { version = "*", features = ["derive"] }
toml = "*"
reqwest = { version = "*", default-features = false, features = ["blocking", "rustls-tls"] }
image = "*"
viuer = "*"
