[package]
name = "caret_context"
version = "0.1.0"
edition = "2021"
publish = false

[dependencies]
log = "0.4"
tauri = { version = "2", default-features = false }
specta = { version = "=2.0.0-rc.22", features = ["derive", "function"] }
block2 = "0.6"
objc2 = "0.6"
objc2-core-foundation = { version = "0.3", features = ["CFCGTypes"] }
objc2-core-graphics = { version = "0.3", features = ["CGImage"] }
objc2-foundation = { version = "0.3", features = ["NSError", "NSString"] }
objc2-screen-capture-kit = { version = "0.3", features = ["SCScreenshotManager", "block2", "objc2-core-graphics", "objc2-core-foundation"] }
