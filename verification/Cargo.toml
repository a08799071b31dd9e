[package]
name = "package_resolver"
version = "0.1.0"
edition = "2021"
publish = false

[dependencies]
lru = "0.10"
move-core-types = "0.0.3"
bcs = "0.1"
async-trait = "0.1"
tokio = { version = "1", features = ["rt", "macros", "sync"] }
