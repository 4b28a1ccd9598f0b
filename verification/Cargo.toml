[package]
name = "xwf_api"
version = "0.1.0"
edition = "2021"
publish = false

[dependencies]
chrono = "*"
serde = { version = "*", features = ["derive"] }
winapi = { version = "0.3", features = ["libloaderapi", "minwindef", "ntdef", "winnt"] }
winsafe = "*"
once_cell = "*"
