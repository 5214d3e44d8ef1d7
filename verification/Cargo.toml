[package]
name = "spellwheel"
version = "0.1.0"
edition = "2021"
publish = false

[dependencies]
anyhow = "=1.0.104"
cached = "=4.1.0"
eldenring = "=0.14.0"
fromsoftware-shared = "=0.14.0"
hudhook = "=0.9.3"
image = { version = "=0.25.10", default-features = false, features = ["png"] }
image_dds = { version = "=0.7.2", default-features = false, features = ["ddsfile"] }
imgui = "=0.12.0"
lazy_static = "=1.5.1"
panic-message = "=0.3.0"
pmod = "=0.2.5"
rayon = "=1.12.0"
retour = { version = "=0.3.1", features = ["static-detour"] }
roxmltree = "=0.21.2"
serde = { version = "=1.0.229", features = ["derive"] }
serde_json = "=1.0.154"
toml = "=1.1.8"
tracing = "=0.1.44"
tracing-subscriber = "=0.3.23"
windows = { version = "=0.62.2", features = ["Win32_Foundation", "Win32_UI_Input_XboxController", "Win32_System_LibraryLoader", "Win32_UI_WindowsAndMessaging", "Win32_Graphics_Gdi", "Win32_System_Threading", "Win32_UI_Input_KeyboardAndMouse"] }
windows-sys = { version = "=0.61.2", features = ["Win32_Foundation", "Win32_System_LibraryLoader"] }
