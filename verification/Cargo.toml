[package]
name = "generator_settings"
version = "0.1.0"
edition = "2021"
publish = false

[dependencies]
workflow-core = "=0.18.0"
kaspa-addresses = "=2.1.0"
