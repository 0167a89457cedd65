[package]
name = "hidplus_client"
version = "0.1.0"
edition = "2021"
publish = false

[dependencies]
clap = "*"
confy = "*"
crossbeam-channel = "*"
ctrlc = "*"
gilrs = "*"
serde = { version = "*", features = ["derive"] }
