[package]
name = "winterjs"
version = "0.1.0"
edition = "2021"
publish = false

[dependencies]
http = "0.2"
hyper = { version = "0.14", features = ["http1", "server", "tcp"] }
tokio = { version = "1", features = ["macros", "rt", "rt-multi-thread", "sync", "time", "net"] }
bytes = "1"
clap = { version = "4", features = ["derive", "env"] }
ctrlc = "3"
anyhow = "1"
