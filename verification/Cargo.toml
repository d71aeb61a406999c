[package]
name = "dnsleaktest"
version = "0.1.0"
edition = "2021"
publish = false

[dependencies]
country-emoji = "*"
itertools = "*"
clap = { version = "4", features = ["derive"] }
color-eyre = "0.6"
ratatui = "0.28"
serde = { version = "1", features = ["derive"] }
trippy = { version = "*", default-features = false, features = ["core", "dns"] }
ureq = { version = "2", features = ["json"] }
