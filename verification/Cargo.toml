[package]
name = "ash"
version = "0.1.0"
edition = "2021"
publish = false

[dependencies]
shared_library = "0.1"
