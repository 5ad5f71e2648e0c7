[package]
name = "lance_bridge"
version = "0.1.0"
edition = "2021"
publish = false

[dependencies]
anyhow = "*"
arrow = { version = "*", features = ["ffi"] }
arrow-array = "*"
arrow-schema = "*"
duckdb = { version = "*", features = ["vtab"] }
futures = "*"
libduckdb-sys = "*"
tokio = { version = "*", features = ["rt-multi-thread"] }
