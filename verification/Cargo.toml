[package]
name = "frork"
version = "0.1.0"
edition = "2021"
publish = false

[dependencies]
mlua = { version = "0.11", features = ["lua54", "vendored", "serialize"] }
serde = { version = "1", features = ["derive"] }
thiserror = "2"
miette = { version = "7", features = ["fancy"] }
clap = { version = "4", features = ["derive"] }
clap_complete = "4"
fs-err = "3"
tracing = "0.1"
tracing-subscriber = "0.3"
color-eyre = "0.6"
regex = "1"

[dev-dependencies]
tempfile = "3"
