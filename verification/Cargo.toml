[package]
name = "dnsdist_console"
version = "0.1.0"
edition = "2021"
publish = false

[dependencies]
sodiumoxide = "*"
base64 = "*"
