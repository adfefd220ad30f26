[package]
name = "simplog"
version = "1.0.0"
edition = "2021"
publish = false

[dependencies]
log = { version = "0.4", features = ["std"] }
termcolor = "1"
atty = "0.2"
chrono = { version = "0.4", default-features = false, features = ["now"] }
