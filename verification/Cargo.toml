[package]
name = "stardust_music"
version = "0.1.0"
edition = "2021"
publish = false

[dependencies]
phonic = "*"
serde = { version = "*", features = ["derive"] }
stardust-xr-asteroids = "*"
stardust-xr-fusion = "*"
tokio = { version = "*", features = ["sync", "rt", "macros"] }
tracing = "*"
tracing-subscriber = { version = "*", features = ["env-filter"] }
tracing-tracy = "*"
