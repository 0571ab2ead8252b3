[package]
name = "a-simple-autoclicker"
version = "0.1.2"
edition = "2021"
publish = false

[dependencies]
serde = { version = "1", features = ["derive"] }
serde_json = "1"
libloading = "0.8"
ksni = "0.2"
gtk4 = "0.9"
libadwaita = { version = "0.7", features = ["v1_4"] }
eframe = { version = "0.27", default-features = false, features = ["default_fonts", "glow"] }
tray-icon = { version = "0.14", default-features = false }
windows-sys = { version = "0.52", features = ["Win32_Foundation", "Win32_UI_Input_KeyboardAndMouse", "Win32_UI_WindowsAndMessaging"] }
