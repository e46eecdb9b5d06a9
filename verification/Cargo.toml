[package]
name = "screen_observer"
version = "0.1.0"
edition = "2021"
publish = false

[dependencies]
anyhow = "1"
async-trait = "0.1"
chrono = { version = "0.4", features = ["serde"] }
core-foundation = "0.10"
core-graphics = "0.24"
foreign-types-shared = "0.3"
image = { version = "0.25", default-features = false }
image-compare = "0.4"
log = "0.4"
objc2 = "0.5"
reqwest = { version = "0.12", default-features = false, features = ["json"] }
serde = { version = "1", features = ["derive"] }
serde_json = "1"
tokio = { version = "1", features = ["rt", "sync", "time"] }
uuid = { version = "1", features = ["v4", "serde"] }
xcap = "*"
