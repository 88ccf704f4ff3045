[package]
name = "abbrws_utils"
version = "0.1.0"
edition = "2021"
publish = false

[dependencies]
structopt = "0.3"
tokio = { version = "1", features = ["macros", "rt-multi-thread"] }
yansi = "0.5"
