[package]
name = "mochimo-crypto"
version = "0.1.0"
edition = "2021"
publish = false

[dependencies]
sha3 = "0.10"
zeroize = "1"
windows-sys = { version = "0.61", features = ["Win32_Foundation", "Win32_Security", "Win32_Security_Authorization", "Win32_Security_Cryptography", "Win32_Storage_FileSystem", "Win32_System_Console", "Win32_System_SystemServices", "Win32_System_Threading"] }
