[package]
name = "mouse-share"
version = "0.1.0"
edition = "2021"
publish = false

[dependencies]
anyhow = "1"
bincode = "1"
serde = { version = "1", features = ["derive"] }
clap = { version = "4", features = ["derive"] }
crossbeam-channel = "0.5"
socket2 = "0.5"
arboard = { version = "3", default-features = false }
log = "0.4"
env_logger = "0.11"
tokio = { version = "1", features = ["sync"] }
core-graphics = "0.24"
core-foundation = "0.10"
windows = { version = "0.58", features = ["Win32_Foundation", "Win32_UI_WindowsAndMessaging", "Win32_UI_Input_KeyboardAndMouse", "Win32_Graphics_Gdi"] }
