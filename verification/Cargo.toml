[package]
name = "tacky_borders"
version = "1.4.0"
edition = "2021"
publish = false

[dependencies]
anyhow = "=1.0.104"
dirs = "=6.0.0"
log = "=0.4.35"
open = "=5.4.5"
pico-args = "=0.5.0"
regex = "1"
serde = { version = "=1.0.229", features = ["derive"] }
serde_json = "=1.0.154"
serde_json_borrow = "=0.9.0"
serde_yaml_ng = "=0.10.0"
sp_log = "=0.2.1"
tray-icon = "=0.21.3"
windows = { version = "=0.62.2", features = ["Win32_Foundation", "Win32_Graphics_Direct2D", "Win32_Graphics_Direct2D_Common", "Win32_Graphics_Dwm", "Win32_Graphics_Dxgi", "Win32_Graphics_Dxgi_Common", "Win32_Graphics_Gdi", "Win32_Networking_WinSock", "Win32_Security", "Win32_Storage_FileSystem", "Win32_System_Console", "Win32_System_IO", "Win32_System_LibraryLoader", "Win32_System_Registry", "Win32_System_Threading", "Win32_UI_Accessibility", "Win32_UI_HiDpi", "Win32_UI_Input_Ime", "Win32_UI_WindowsAndMessaging"] }
windows-numerics = "=0.3.1"
winreg = "=0.55.0"
