[package]
name = "runtime_measurer"
version = "0.1.0"
edition = "2021"
publish = false

[dependencies]
glob = "*"
sha2 = "*"
ttrpc = { version = "*", features = ["async"] }
tokio = { version = "*", features = ["macros", "rt-multi-thread"] }
log = "*"
env_logger = "*"
