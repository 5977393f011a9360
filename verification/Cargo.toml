[package]
name = "onebox_lifecycle"
version = "0.1.0"
edition = "2021"
publish = false

[dependencies]
block2 = "=0.6.2"
objc2 = "=0.6.5"
objc2-app-kit = { version = "=0.3.2", default-features = false, features = ["std", "NSApplication", "NSResponder"] }
objc2-foundation = { version = "=0.3.2", default-features = false, features = ["std", "NSObject", "NSString"] }
tokio = { version = "=1.54.1", default-features = false, features = ["rt", "sync"] }
windows = { version = "=0.62.2", features = ["Win32_Foundation", "Win32_Graphics_Gdi", "Win32_NetworkManagement_IpHelper", "Win32_NetworkManagement_Ndis", "Win32_Networking_WinSock", "Win32_System_LibraryLoader", "Win32_System_Shutdown", "Win32_System_Threading", "Win32_UI_WindowsAndMessaging"] }
