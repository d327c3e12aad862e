[package]
name = "nut_hid_device"
version = "0.1.0"
edition = "2021"
publish = false

[dependencies]
binary_serde = "*"
clap = { version = "4", features = ["derive"] }
log = "0.4"
rups = "*"
wdk = "*"
wdk-sys = "*"
widestring = "1"
windows = { version = "*", features = ["Win32_Devices_Enumeration_Pnp", "Win32_Devices_Properties", "Win32_Devices_HumanInterfaceDevice", "Win32_Foundation"] }
windows-strings = "*"
