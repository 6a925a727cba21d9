[package]
name = "mv7mute-core"
version = "0.1.2"
edition = "2021"
publish = false

[dependencies]
image = { version = "=0.25.10", default-features = false, features = ["png"] }
clap = { version = "=4.6.7", features = ["derive"] }
hidapi = { version = "=2.6.7", default-features = false, features = ["linux-native-basic-udev"] }
winit = "0.30"
tray-icon = "0.23"
single-instance = "*"
winreg = "*"
