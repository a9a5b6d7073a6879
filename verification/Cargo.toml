[package]
name = "hchk"
version = "0.1.0"
edition = "2021"
publish = false

[dependencies]
chrono = "0.4"
chrono-humanize = "*"
serde = { version = "1", features = ["derive"] }
serde_derive = "1"
serde_json = "1"
ureq = "2"
clap = "2"
colored = "*"
isatty = "*"

[dev-dependencies]
mockito = "1"
