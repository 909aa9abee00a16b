[package]
name = "guilauncher"
version = "0.1.0"
edition = "2021"
publish = false

[dependencies]
anyhow = "1"
clap = { version = "4", features = ["derive"] }
console = "*"
directories = "*"
indicatif = "*"
self-replace = "1"
serde = { version = "1", features = ["derive"] }
serde_json = "1"
tar = "0.4"
tracing = "0.1"
tracing-subscriber = "0.3"
ureq = "3"
xz = "0.1"
yansi = "1"
zip = { version = "2", default-features = false, features = ["deflate"] }
