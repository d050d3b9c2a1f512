[package]
name = "alarm_mux"
version = "0.1.0"
edition = "2021"
publish = false

[dependencies]
embassy-sync = "*"
embassy-futures = "*"
embassy-executor = "*"
embassy-time-driver = { version = "*", features = ["tick-hz-32_768"] }
embassy-time-queue-utils = "*"
critical-section = { version = "*", features = ["std"] }
fugit = "*"
nb = "*"
