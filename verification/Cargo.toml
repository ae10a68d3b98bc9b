[package]
name = "lanclip"
version = "0.1.0"
edition = "2021"
publish = false

[dependencies]
tokio = { version = "1", features = ["sync", "rt-multi-thread", "macros"] }
uuid = { version = "1", features = ["v4"] }
tonic = { version = "0.12" }
prost = { version = "0.13" }
tokio-stream = { version = "0.1" }
arboard = { version = "3" }
clap = { version = "4", features = ["derive"] }
objc2 = { version = "0.5" }
objc2-app-kit = { version = "0.2", features = ["NSPasteboard", "NSPasteboardItem"] }
objc2-foundation = { version = "0.2", features = ["NSArray", "NSString"] }
