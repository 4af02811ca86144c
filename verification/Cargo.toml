[package]
name = "window_hotkeys"
version = "0.1.0"
edition = "2021"
publish = false

[dependencies]
global-hotkey = "=0.8.0"
serde_json = "=1.0.154"
tauri = { version = "=2.12.5", default-features = false }
tauri-plugin-global-shortcut = "=2.4.1"
