[package]
name = "gi_toolkit"
version = "0.1.0"
edition = "2021"
publish = false

[dependencies]
serde_json = "1"
windows-sys = { version = "*", features = [
    "Win32_Foundation",
    "Win32_Security",
    "Win32_System_Diagnostics_ToolHelp",
    "Win32_System_Environment",
    "Win32_System_LibraryLoader",
    "Win32_System_Memory",
    "Win32_System_SystemServices",
    "Win32_System_Threading",
    "Win32_UI_WindowsAndMessaging",
] }
min_hook_rs = "*"
