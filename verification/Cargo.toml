[package]
name = "cleanup_tool"
version = "0.1.0"
edition = "2021"

[dependencies]
chrono = "0.4"
walkdir = "2"
