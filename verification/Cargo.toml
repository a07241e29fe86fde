[package]
name = "flag_engine"
version = "0.1.0"
edition = "2021"
publish = false

[dependencies]
f1-game-library-models-25 = "*"
tokio = { version = "1", features = ["rt-multi-thread", "macros", "net"] }
