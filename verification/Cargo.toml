[package]
name = "catalog_lib"
version = "0.1.0"
edition = "2021"
publish = false

[dependencies]
data-encoding = "=2.11.1"
sha3 = "=0.10.9"
xml-rs = "=0.8.29"
walkdir = "=2.5.0"
thiserror = "=1.0.69"
windows = { version = "0.58", features = ["Win32_Foundation", "Win32_Security", "Win32_System_Registry"] }
