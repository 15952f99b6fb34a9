[package]
name = "async_lock"
version = "0.1.0"
edition = "2021"
publish = false

[dependencies]
event-listener = "2.5"
pin-project-lite = "0.2"
