[package]
name = "fcopy"
version = "0.1.0"
edition = "2021"
publish = false

[dependencies]
hex = "0.4"
blake2 = "0.10"
file-hashing = "*"
num_cpus = "1"
clap = { version = "4", features = ["derive"] }
eyre = "0.6"
console = "0.15"
fs_extra = "1"
indicatif = "0.17"
keepawake = "*"
tracing = "0.1"
tracing-subscriber = { version = "0.3", features = ["env-filter"] }
tracing-indicatif = "*"

[dev-dependencies]
tempfile = "3"
