[package]
name = "reason"
version = "0.1.0"
edition = "2021"
publish = false

[dependencies]
regex = "*"
home = "*"
serde = { version = "*", features = ["derive"] }
serde_yaml = "*"
thiserror = "*"
comfy-table = { version = "*", default-features = false }
rustyline = "*"
confy = "*"
url = "*"
tempfile = "*"
soup = "*"
reqwest = { version = "*", default-features = false, features = ["blocking", "rustls-tls"] }
pdf = "*"
mdbook = { version = "*", default-features = false }
