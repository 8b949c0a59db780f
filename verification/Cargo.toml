[package]
name = "a2app_core"
version = "0.1.0"
edition = "2021"
publish = false

[dependencies]
serde = { version = "1", features = ["derive"] }
serde_json = "1"
makepad-widgets = "*"
robius-open = "*"
robius-share = "*"
robius-authentication = "*"
robius-location = "*"
robius-file-picker = "*"
