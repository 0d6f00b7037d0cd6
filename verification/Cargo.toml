[package]
name = "residency"
version = "0.1.0"
edition = "2021"
publish = false

[dependencies]
diesel = { version = "2.2", features = ["sqlite"] }
libsqlite3-sys = { version = "0.30", features = ["bundled"] }
log = "0.4"
tracing = "0.1"
