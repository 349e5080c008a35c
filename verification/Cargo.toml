[package]
name = "pantomime"
version = "0.1.0"
edition = "2021"
publish = false

[dependencies]
crossbeam = "=0.8.5"
log = "=0.4.34"
fern = { version = "=0.7.1", features = ["colored"] }
chrono = "=0.4.45"
atty = "=0.2.14"
signal-hook = "=0.4.5"
