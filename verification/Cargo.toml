[package]
name = "fsc"
version = "0.1.0"
edition = "2021"
publish = false

[dependencies]
windows-result = "0.3"
windows = { version = "0.61", features = ["Win32_Foundation", "Win32_Security", "Win32_System_Threading", "Win32_System_ProcessStatus", "Win32_UI_WindowsAndMessaging", "Win32_System_Environment", "Win32_System_Services", "Win32_System_Memory", "Win32_System_StationsAndDesktops"] }
windows-service = "0.8"
log = "0.4"
simplelog = "0.12"
ctrlc = "3"
once_cell = "1"
anyhow = "1"
