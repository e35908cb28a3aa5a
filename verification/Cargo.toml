[package]
name = "tmp-postgrust"
version = "0.1.0"
edition = "2021"
publish = false

[dependencies]
lazy_static = "1"
nix = { version = "*", features = ["signal"] }
tempdir = "0.3"
tokio = { version = "1", features = ["process", "sync", "io-util", "rt", "macros", "fs"] }
tracing = "0.1"
