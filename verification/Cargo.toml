[package]
name = "chrome_password_unlock"
version = "0.1.0"
edition = "2021"
publish = false

[dependencies]
aes = "*"
aes-gcm = "*"
anyhow = "*"
cbc = { version = "*", features = ["alloc"] }
clap = { version = "*", features = ["derive"] }
comfy-table = "*"
dirs = "*"
hmac = "*"
pbkdf2 = "*"
rusqlite = { version = "*", features = ["backup", "bundled"] }
security-framework = "*"
serde = { version = "*", features = ["derive"] }
serde_json = "*"
sha1 = "*"
tempfile = "*"
thiserror = "*"
tracing = "*"
tracing-subscriber = { version = "*", features = ["env-filter"] }

[dev-dependencies]
rustix = { version = "*", features = ["fs"] }
