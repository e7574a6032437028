[package]
name = "kaffe"
version = "0.1.0"
edition = "2021"
publish = false

[dependencies]
csv = "=1.4.0"
jiff = "=0.2.43"
rusqlite = { version = "=0.32.1", features = ["bundled"] }
clap = { version = "=4.6.7", features = ["derive"] }
inquire = { version = "=0.7.5", features = ["date"] }
