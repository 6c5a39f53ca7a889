[package]
name = "motion_cam"
version = "0.1.0"
edition = "2021"
publish = false

[dependencies]
chrono = "0.4"
base64 = "0.13"
log = "0.4"
serde = { version = "1", features = ["derive"] }
serde_json = "1"
toml = "0.5"
tokio = { version = "1", features = ["full"] }
tokio-stream = { version = "0.1", features = ["fs"] }
futures = "0.3"
anyhow = "1"
async-trait = "0.1"
once_cell = "1"
ctrlc = "3"
bytes = "1"
libc = "0.2"
strum = { version = "0.24", features = ["derive"] }
ffmpeg-next = "*"
rocket = { version = "0.5", features = ["json"] }
webrtc = "*"
