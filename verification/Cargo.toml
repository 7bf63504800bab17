[package]
name = "a_cli_tool"
version = "0.1.0"
edition = "2021"
publish = false

[dependencies]
semver = "1"
serde = "1"
serde_json = "1"
structopt = "0.3"
