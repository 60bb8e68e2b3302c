[package]
name = "vleue_sentry"
version = "0.1.0"
edition = "2021"
publish = false

[dependencies]
bevy_app = "*"
bevy_log = "*"
sentry = "*"
sentry-tracing = "*"
tracing = "0.1"

[dev-dependencies]
sentry = { version = "*", features = ["test"] }
