[package]
name = "mmv3_car_physics"
version = "0.1.0"
edition = "2021"
publish = false

[dependencies]
base64 = "0.13"
byteorder = "1"
serde = "1"
serde_derive = "1"
serde_json = "1"
strum = "0.20"
strum_macros = "0.20"
web-view = "0.7"
winapi = { version = "0.3", features = ["shellscalingapi"] }
