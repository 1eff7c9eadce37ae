[package]
name = "quick_launch"
version = "0.1.0"
edition = "2021"
publish = false

[dependencies]
oneshot = "0.1"
global-hotkey = "0.7"
objc2 = "0.6"
objc2-app-kit = "0.3"
objc2-foundation = "0.3"
dispatch2 = "0.3"
