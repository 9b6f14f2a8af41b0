[package]
name = "harper_desktop"
version = "0.1.0"
edition = "2021"
publish = false

[dependencies]
tauri = { version = "2", default-features = false, features = ["image-png"] }
serde_json = "1"
tokio = { version = "1", default-features = false, features = ["io-std", "io-util", "macros", "rt", "sync", "time"] }
clap = { version = "4", default-features = false, features = ["derive", "std", "help", "usage"] }
accessibility = "*"
accessibility-sys = "*"
core-foundation = "*"
core-graphics = "*"
objc2-app-kit = { version = "0.3", default-features = false, features = ["std", "libc", "NSRunningApplication"] }
objc2-foundation = { version = "0.3", default-features = false, features = ["std", "NSString", "NSGeometry"] }
