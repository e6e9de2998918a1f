[package]
name = "dotnet_module"
version = "0.1.0"
edition = "2021"
publish = false

[dependencies]
ansi_term = "0.12"
serde_json = "1.0"
