[package]
name = "podbridge"
version = "0.1.0"
edition = "2021"
publish = false

[dependencies]
anyhow = "1"
log = "0.4"
env_logger = "*"
serde = { version = "1", features = ["derive"] }
tray-icon = "*"
windows = { version = "*", features = ["Devices_Bluetooth", "Devices_Bluetooth_Advertisement", "Devices_Enumeration", "Foundation", "Foundation_Collections", "Storage_Streams"] }
