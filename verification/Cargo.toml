[package]
name = "imagio"
version = "0.1.0"
edition = "2021"
publish = false

[dependencies]
image = "*"
fast_image_resize = { version = "*", features = ["image"] }
mime_guess = "*"
axum = { version = "*", features = ["multipart"] }
clap = { version = "*", features = ["derive"] }
opendal = { version = "*", default-features = false, features = ["services-fs", "services-s3"] }
rusqlite = { version = "*", features = ["bundled"] }
serde = { version = "*", features = ["derive"] }
thiserror = "*"
tokio = { version = "*", features = ["full"] }
tracing = "*"
tracing-subscriber = "*"
uuid = { version = "*", features = ["v4"] }
chrono = "*"
