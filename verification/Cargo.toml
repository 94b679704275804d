[package]
name = "face_data"
version = "0.1.0"
edition = "2021"
publish = false

[dependencies]
dioxus = "0.5"
dioxus-logger = "0.4"
log = "0.4"
thiserror = "1"
winreg = { version = "0.52", features = ["transactions"] }
