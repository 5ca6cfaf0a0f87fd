[package]
name = "winscribe"
version = "0.1.0"
edition = "2021"

[dependencies]
windows-registry = "=0.5.3"
