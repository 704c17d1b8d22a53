[package]
name = "uma_fps_unlocker"
version = "0.1.0"
edition = "2021"
publish = false

[dependencies]
widestring = "1"
once_cell = "1"
minhook = "0.2"
windows = { version = "0.52", features = ["Win32_Foundation", "Win32_Security", "Win32_System_LibraryLoader", "Win32_System_SystemServices", "Win32_System_Threading", "Win32_System_Diagnostics_Debug", "Win32_System_Diagnostics_ToolHelp", "Win32_System_Memory", "Win32_System_ProcessStatus", "Win32_UI_WindowsAndMessaging", "Win32_Graphics_Gdi"] }
