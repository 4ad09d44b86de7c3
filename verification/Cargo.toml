[package]
name = "interloc"
version = "0.1.0"
edition = "2021"

[dependencies]
lock_api = "*"
parking_lot = "*"
