[package]
name = "media_control"
version = "0.1.0"
edition = "2021"
publish = false

[dependencies]
chrono = { version = "0.4", default-features = false, features = ["std"] }
flume = { version = "0.11", default-features = false }
souvlaki = { version = "0.7", default-features = false, features = ["use_zbus"] }
tracing = { version = "0.1", default-features = false, features = ["std"] }
rspotify = { version = "0.13", default-features = false, features = ["client-ureq"] }
