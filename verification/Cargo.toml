[package]
name = "att_runtime"
version = "0.1.0"
edition = "2021"
publish = false

[dependencies]
async-channel = "2"
rusqlite = { version = "*", features = ["bundled", "backup", "limits", "hooks"] }
serde = { version = "1", features = ["derive"] }
serde_json = "1"
time = { version = "0.3", features = ["formatting", "parsing"] }
tokio = { version = "1", features = ["sync"] }
uuid = "1"
windows-sys = { version = "*", features = ["Win32_Foundation", "Win32_Security_Cryptography", "Win32_Storage_FileSystem", "Win32_System_IO", "Win32_System_SystemServices", "Win32_System_WindowsProgramming"] }
