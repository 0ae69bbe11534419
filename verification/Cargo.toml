[package]
name = "template_rs"
version = "0.1.0"
edition = "2021"
publish = false

[dependencies]
gix = "*"
chrono = "*"
rustc_version = "*"
clap = { version = "*", features = ["derive"] }
miette = "*"
tokio = { version = "*", features = ["macros", "rt-multi-thread"] }
tracing = "*"
tracing-subscriber = "*"
