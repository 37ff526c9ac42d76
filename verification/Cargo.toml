[package]
name = "hid_brightness"
version = "0.1.0"
edition = "2021"

[dependencies]
hidapi = { version = "=2.6.7", default-features = false, features = ["linux-native-basic-udev"] }
crossterm = "=0.29.0"
indicatif = "=0.18.6"
