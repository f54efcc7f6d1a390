[package]
name = "flow_core"
version = "0.1.0"
edition = "2021"
publish = false

[dependencies]
base64 = "*"
clap = { version = "*", features = ["derive"] }
cloud_terrastodon_user_input = "*"
color-eyre = "*"
eyre = "*"
ollama-rs = { version = "*", default-features = false, features = ["stream", "rustls"] }
serde = { version = "*", features = ["derive"] }
serde_json = "*"
tokio = { version = "*", features = ["macros", "rt-multi-thread", "fs"] }
tokio-stream = "*"
tracing = "*"
tracing-subscriber = "*"
windows = { version = "*", features = ["Win32_Foundation", "Win32_System_DataExchange", "Win32_System_Memory", "Win32_System_Ole", "Win32_UI_Shell"] }
