[package]
name = "lightspot"
version = "0.1.0"
edition = "2021"
publish = false

[dependencies]
png = "*"

[dev-dependencies]
planetarium = "*"
