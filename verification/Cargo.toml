[package]
name = "voicegate"
version = "0.1.0"
edition = "2021"
publish = false

[dependencies]
encoding_rs = "*"
base64 = "*"
serde = { version = "*", features = ["derive"] }
serde-xml-rs = "*"
aes = "*"
cbc = { version = "*", features = ["alloc", "block-padding"] }
pbkdf2 = "*"
sha1 = "*"
flate2 = "*"
zip = { version = "*", default-features = false, features = ["deflate"] }
anyhow = "*"
tokio = { version = "*", features = ["rt", "macros", "net", "sync"] }
axum = "*"
clap = { version = "*", features = ["derive", "env"] }
once_cell = "*"
tracing = "*"
tracing-subscriber = "*"
