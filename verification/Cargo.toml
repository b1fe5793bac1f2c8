[package]
name = "mic_mute_indicator"
version = "0.1.0"
edition = "2021"
publish = false

[dependencies]
argh = "0.1"
windows = { version = "0.58", features = ["implement", "Win32_Devices_FunctionDiscovery", "Win32_Foundation", "Win32_Graphics_Gdi", "Win32_Media_Audio", "Win32_Media_Audio_Endpoints", "Win32_Security", "Win32_System_Com", "Win32_System_Com_StructuredStorage", "Win32_System_Console", "Win32_System_LibraryLoader", "Win32_System_Registry", "Win32_System_SystemInformation", "Win32_System_Threading", "Win32_System_Variant", "Win32_UI_Shell", "Win32_UI_Shell_PropertiesSystem", "Win32_UI_WindowsAndMessaging"] }
