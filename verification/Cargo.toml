[package]
name = "tray_presence"
version = "0.1.0"
edition = "2021"
publish = false

[package.metadata.unbuilt]
crates = ["tauri", "tauri-plugin-shell"]
