[package]
name = "flion"
version = "0.1.0"
edition = "2021"
publish = false

[dependencies]
bitflags = "2"
cargo_metadata = "=0.19.2"
clap = { version = "=4.6.7", features = ["derive"] }
color-eyre = "=0.6.5"
ctor = "0.2"
duct = "=0.13.7"
eyre = "=0.6.14"
gl = "=0.14.0"
khronos-egl = { version = "=6.0.0", features = ["static"] }
linkme = "0.3"
parking_lot = "=0.12.5"
raw-window-handle = "=0.6.2"
saphyr = "=0.0.3"
serde = { version = "=1.0.229", features = ["derive"] }
serde_json = "=1.0.154"
smol_str = "=0.2.2"
tracing = "=0.1.44"
tracing-subscriber = "=0.3.23"
ureq = "=3.5.1"
which = "=7.0.3"
windows = { version = "=0.61.3", features = [
    "Win32_Foundation",
    "Win32_Graphics_Direct3D",
    "Win32_Graphics_Direct3D11",
    "Win32_Graphics_Direct3D_Fxc",
    "Win32_Graphics_DirectComposition",
    "Win32_Graphics_Dwm",
    "Win32_Graphics_Dxgi",
    "Win32_Graphics_Dxgi_Common",
    "Win32_Graphics_Gdi",
    "Win32_Graphics_Hlsl",
    "Win32_Security",
    "Win32_System_LibraryLoader",
    "Win32_System_Registry",
    "Win32_System_Threading",
    "Win32_UI_Controls",
    "Win32_UI_HiDpi",
    "Win32_UI_Input_KeyboardAndMouse",
    "Win32_UI_Input_Touch",
    "Win32_UI_Shell",
    "Win32_UI_WindowsAndMessaging",
] }
windows-numerics = "=0.2.0"
winit = "=0.29.15"
zip = "=2.6.1"
