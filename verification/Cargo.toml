[package]
name = "flutter_qrcode_plugin"
version = "0.1.0"
edition = "2021"
publish = false

[dependencies]
image = { version = "0.23", default-features = false }
opencv = "*"
flutter-engine = "0.3.5"
flutter-plugins = "0.3.5"
glutin = "0.24"
env_logger = "*"
log = "0.4"
