[package]
name = "rmm"
version = "0.1.0"
edition = "2021"
publish = false

[dependencies]
directories = "5"
enigo = "0.2"
native-dialog = "0.7"
rdev = "0.5"
serde = { version = "1", features = ["derive"] }
serde_json = "1"
thiserror = "1"
tracing = "0.1"
tracing-subscriber = { version = "0.3", features = ["env-filter"] }
tray-item = { version = "0.10", features = ["ksni"] }
