[package]
name = "ry_frontend"
version = "0.1.0"
edition = "2021"
publish = false

[dependencies]
unicode-xid = "0.2"
clap = { version = "4", features = ["derive"] }
termcolor = "1"
tracing-subscriber = { version = "0.3", features = ["env-filter"] }
