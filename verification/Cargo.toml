[package]
name = "exalta"
version = "0.1.0"
edition = "2021"
publish = false

[dependencies]
anyhow = "1"
base64 = "0.13"
clap = { version = "3.2", default-features = false, features = ["std", "derive"] }
directories = "4"
eframe = "0.19"
flate2 = "1"
keyring = "1"
md5 = "0.7"
once_cell = "1"
poll-promise = "0.1"
quick-xml = { version = "0.23", features = ["serialize"] }
regex = "1"
reqwest = { version = "0.11", default-features = false }
serde = { version = "1", features = ["derive"] }
serde_json = "1"
sha1 = "0.10"
smbios-lib = "0.8"
tokio = { version = "1", features = ["rt-multi-thread", "sync", "process", "macros"] }
winreg = "0.10"
