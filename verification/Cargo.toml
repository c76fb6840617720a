[package]
name = "nml"
version = "0.1.0"
edition = "2021"
publish = false

[dependencies]
uuid = { version = "1", features = ["v4"] }
tokio = { version = "1", features = ["full"] }
tokio-util = "0.7"
tonic = "*"
tonic-prost = "*"
prost = "*"
sysinfo = "*"
clap = { version = "4", features = ["derive"] }
toml = "*"
serde = { version = "1", features = ["derive"] }
