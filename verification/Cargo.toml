[package]
name = "atspi_client"
version = "0.1.0"
edition = "2021"
publish = false

[dependencies]
dbus = { version = "=0.9.12", features = ["vendored", "futures"] }
futures-core = "*"
