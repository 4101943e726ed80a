[package]
name = "smart_light"
version = "0.1.0"
edition = "2021"
publish = false

[dependencies]
chrono = "*"
timer = "*"
postgres = "*"
iron = "*"
router = "*"
