[package]
name = "next_tablet_driver"
version = "0.1.0"
edition = "2021"
publish = false

[dependencies]
base64 = "=0.22.1"
serde = { version = "=1.0.229", features = ["derive"] }
serde_json = "=1.0.154"
log = "=0.4.35"
chrono = "=0.4.45"
directories = "=5.0.1"
hex = "=0.4.3"
sha2 = "=0.10.9"
ureq = { version = "=2.12.1", features = ["json"] }
crossbeam-channel = "=0.5.17"
tungstenite = "=0.30.0"
hidapi = { version = "=2.6.7", default-features = false, features = ["linux-native-basic-udev"] }
libc = "=0.2.191"
