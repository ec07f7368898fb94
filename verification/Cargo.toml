[package]
name = "swayped"
version = "0.1.0"
edition = "2021"
publish = false

[dependencies]
anyhow = "*"
clap = { version = "*", features = ["derive", "env"] }
dirs = "*"
input = "*"
libc = "*"
serde = { version = "*", features = ["derive"] }
swayipc = "*"
syslog-tracing = "*"
tokio = { version = "*", features = ["rt", "macros", "sync", "signal", "net"] }
toml = "*"
tracing = "*"
tracing-subscriber = { version = "*", features = ["env-filter", "fmt", "registry"] }
