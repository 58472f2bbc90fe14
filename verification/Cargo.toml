[package]
name = "workspace_manager"
version = "0.1.0"
edition = "2021"
publish = false

[dependencies]
chardetng = "=1.0.0"
chrono = "=0.4.45"
clap = { version = "=4.6.7", features = ["derive"] }
comfy-table = "=8.0.1"
crossterm = "=0.29.0"
dialoguer = "=0.12.0"
encoding_rs = "=0.8.42"
fs_extra = "=1.3.0"
ignore = "=0.4.33"
indicatif = "=0.18.6"
regex = "=1.13.1"
roxmltree = "=0.21.2"
unicode-width = "=0.2.2"
urlencoding = "=2.1.3"
windows-sys = { version = "=0.61.2", features = ["Win32_Foundation", "Win32_Storage_FileSystem", "Win32_System_IO", "Win32_System_Diagnostics_ToolHelp", "Win32_System_Threading", "Win32_UI_Shell"] }
