[package]
name = "playwith"
version = "0.1.0"
edition = "2021"
publish = false

[dependencies]
time = "*"
xmltree = "*"
rust-crypto = "*"
hyper = "=0.10.16"
serde = { version = "*", features = ["derive"] }
serde_json = "*"
rusty_alfred = "*"
dotenv = "*"
