[package]
name = "shotpaste"
version = "0.3.0"
edition = "2021"
publish = false

[dependencies]
anyhow = "1"
clap = { version = "4", features = ["derive"] }
clipboard-rs = "*"
clipboard-win = "5"
dirs = "*"
fs2 = "0.4"
image = { version = "0.25", default-features = false, features = ["bmp", "png"] }
notify = "*"
notify-debouncer-full = "*"
notify-rust = "4"
serde = { version = "1", features = ["derive"] }
toml = "*"
tracing = "0.1"
tracing-appender = "0.2"
tracing-subscriber = { version = "0.3", features = ["env-filter"] }
windows-sys = { version = "*", features = ["Win32_Foundation", "Win32_Security", "Win32_System_Threading"] }
