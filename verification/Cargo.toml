[package]
name = "hackatime_setup"
version = "0.1.0"
edition = "2021"
publish = false

[dependencies]
uuid = "1"
rand = "0.9"
rust-ini = "0.21"
clap = { version = "4", features = ["derive"] }
color-eyre = "0.6"
colored = "2"
dialoguer = "0.11"
dirs = "5"
indicatif = "0.17"
rayon = "1"
reqwest = { version = "0.12", default-features = false, features = ["blocking", "json", "rustls-tls"] }
serde = { version = "1", features = ["derive"] }
tempfile = "3"
terminal_size = "0.4"
