[package]
name = "busobj"
version = "0.1.0"
edition = "2021"
publish = false

[dependencies]
async-rustbus = "*"
tokio = { version = "*", features = ["macros", "rt-multi-thread"] }
