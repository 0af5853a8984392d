[package]
name = "hello_samples"
version = "0.1.0"
edition = "2021"
publish = false

[dependencies]
array-init = "=2.1.0"
ash = { version = "=0.38.0", default-features = false, features = ["std", "loaded", "debug"] }
ash-window = "=0.13.0"
gl = "=0.14.0"
raw-window-handle = "=0.6.2"
shaderc = "0.8"
wasm-bindgen = "=0.2.129"
web-sys = { version = "=0.3.106", features = ["console"] }
windows = { version = "=0.59.0", features = ["Data_Xml_Dom", "Foundation_Numerics", "UI_Composition", "UI_Composition_Desktop", "UI_Notifications", "Win32_Foundation", "Win32_Graphics_Direct3D", "Win32_Graphics_Direct3D_Fxc", "Win32_Graphics_Direct3D9", "Win32_Graphics_Direct3D10", "Win32_Graphics_Direct3D11", "Win32_Graphics_Direct3D12", "Win32_Graphics_Dxgi", "Win32_Graphics_Dxgi_Common", "Win32_Graphics_Gdi", "Win32_Graphics_OpenGL", "Win32_Security", "Win32_System_Com", "Win32_System_LibraryLoader", "Win32_System_Ole", "Win32_System_Threading", "Win32_System_Variant", "Win32_System_WinRT", "Win32_System_WinRT_Composition", "Win32_UI_Shell", "Win32_UI_WindowsAndMessaging"] }
winit = "=0.30.13"
