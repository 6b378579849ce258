[package]
name = "duckypad_daemon"
version = "0.1.0"
edition = "2021"
publish = false

[dependencies]
hidapi = { version = "=2.6.7", default-features = false, features = ["linux-native-basic-udev"] }
clap = { version = "=4.6.7", features = ["derive"] }
notify = "=4.0.18"
serde = { version = "=1.0.229", features = ["derive"] }
serde_json = "=1.0.151"
dirs-next = "=2.0.0"
sysinfo = "=0.29.11"
active-win-pos-rs = "=0.8.4"
x11rb = "=0.12.0"
