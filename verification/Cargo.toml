[package]
name = "pokedex"
version = "0.1.0"
edition = "2021"
publish = false

[dependencies]
anyhow = "1"
clap = { version = "4", features = ["derive"] }
csv = "1"
flate2 = "1"
reqwest = { version = "0.12", default-features = false, features = ["blocking", "json", "rustls-tls"] }
rusqlite = { version = "*", features = ["bundled"] }
rusqlite_migration = "*"
serde = { version = "1", features = ["derive"] }
serde_json = "1"
strsim = "0.11"
tar = "0.4"
