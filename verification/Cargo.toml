[package]
name = "dark_switch"
version = "0.1.0"
edition = "2021"
publish = false

[dependencies]
native-windows-derive = "=1.0.5"
native-windows-gui = { version = "=1.0.13", default-features = false, features = ["cursor", "image-decoder", "menu", "message-window", "tray-notification"] }
winreg = "=0.56.0"
