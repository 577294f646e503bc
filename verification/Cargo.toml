[package]
name = "audio_controller"
version = "0.1.0"
edition = "2021"
publish = false

[dependencies]
windows-result = "=0.2.0"
crossterm = "=0.28.1"
ratatui = "=0.29.0"
windows = { version = "=0.58.0", features = ["Win32_Foundation", "Win32_Media_Audio", "Win32_System_Com", "Win32_System_Com_StructuredStorage", "Win32_System_Threading", "Win32_System_ProcessStatus", "Win32_UI_Shell_PropertiesSystem", "Win32_Devices_FunctionDiscovery", "Win32_System_Variant"] }

[dev-dependencies]
windows-sys = { version = "=0.59.0", features = ["Win32_Foundation", "Win32_Media_Audio"] }
