[package]
name = "monitorctl"
version = "0.1.0"
edition = "2021"
publish = false

[dependencies]
zbus = "*"
tokio = { version = "*", features = ["macros", "rt-multi-thread", "time"] }
futures = "*"
clap = { version = "*", features = ["derive"] }
thiserror = "*"
