[package]
name = "hexview"
version = "0.1.0"
edition = "2021"
publish = false

[dependencies]
clap = { version = "4", features = ["derive"] }
colored = "*"
windows-sys = { version = "*", features = ["Win32_System_Console"] }
