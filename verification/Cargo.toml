[package]
name = "mkac"
version = "0.1.0"
edition = "2021"
publish = false

[dependencies]
fastrand = "2"
serde = { version = "1", features = ["derive"] }
serde_json = "1"
crossbeam-channel = "0.5"
spin_sleep = "1"
anyhow = "1"
egui = { version = "*", default-features = false }
eframe = { version = "*", default-features = false, features = ["glow", "x11"] }
tray-icon = "*"
windows = { version = "*", features = ["Win32_Foundation", "Win32_UI_Input_KeyboardAndMouse", "Win32_UI_WindowsAndMessaging", "Win32_Graphics_Gdi", "Win32_Graphics_Dwm", "Win32_System_Registry", "Win32_System_Threading", "Win32_Media"] }
