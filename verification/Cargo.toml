[package]
name = "tutorial_app"
version = "0.1.0"
edition = "2021"
publish = false

[dependencies]
leptos = { version = "0.6", features = ["csr"] }
uuid = { version = "1", features = ["v4"] }
gloo-timers = { version = "0.3", features = ["futures"] }
