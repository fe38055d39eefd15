[package]
name = "aa-caller"
version = "0.1.0"
edition = "2021"
publish = false

[dependencies]
clap = { version = "4", features = ["derive"] }
prost = "0.13"
tokio = { version = "1", features = ["macros", "rt-multi-thread", "net", "io-util"] }
