[package]
name = "wesl_metadata"
version = "0.1.0"
edition = "2021"
publish = false

[dependencies]
camino = "1"
semver = "1"
serde_json = "1"
