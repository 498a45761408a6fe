[package]
name = "simulator"
version = "0.1.0"
edition = "2021"
publish = false

[dependencies]
rand = "0.9"
indexmap = "2"
heck = "0.5"
regex = "1"
serde = { version = "1", features = ["derive"] }
serde_json = "1"
toml = "0.8"
anyhow = "1"
tracing = "0.1"
tracing-subscriber = "0.3"
num_cpus = "1"
syn = { version = "2", features = ["full"] }
prettyplease = "0.2"
