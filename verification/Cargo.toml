[package]
name = "filehide"
version = "1.1.0"
edition = "2021"
publish = false

[dependencies]
argon2 = "=0.5.3"
rand_core = { version = "=0.6.4", features = ["getrandom"] }
serde = { version = "1", features = ["derive"] }
rusqlite = "0.37"
chrono = "0.4"
windows = { version = "0.61", features = ["Win32_Foundation", "Win32_Storage_FileSystem", "Win32_System_Registry", "Win32_UI_WindowsAndMessaging"] }
