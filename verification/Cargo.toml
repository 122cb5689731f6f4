[package]
name = "scaffolder"
version = "0.1.0"
edition = "2021"
publish = false

[dependencies]
toml = "*"
handlebars = "*"
serde_json = "*"
slug = "*"
dialoguer = "*"
