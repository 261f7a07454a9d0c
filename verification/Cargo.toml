[package]
name = "git_tc"
version = "0.1.0"
edition = "2021"
publish = false

[dependencies]
rand = "*"
chrono = "*"
confy = "*"
serde = { version = "*", features = ["derive"] }
