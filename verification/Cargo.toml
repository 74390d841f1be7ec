[package]
name = "cloud_mirror"
version = "0.1.0"
edition = "2021"
publish = false

[dependencies]
widestring = "1"
clap = { version = "4", features = ["derive"] }
thiserror = "1"
tokio = { version = "1", features = ["net", "rt", "sync", "macros"] }
tokio-util = { version = "0.7", features = ["codec", "net"] }
futures = "0.3"
bytes = "1"
quiche = "*"
tap = "1"
anyhow = "1"
windows = { version = "0.48", features = ["Win32_Foundation", "Win32_Storage_CloudFilters", "Win32_Storage_FileSystem", "Win32_Security", "Win32_Security_Authorization", "Win32_System_Threading", "Win32_System_Memory", "Win32_System_CorrelationVector", "Foundation", "Storage", "Storage_Provider"] }
