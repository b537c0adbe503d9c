[package]
name = "pitstop"
version = "0.1.0"
edition = "2021"
publish = false

[dependencies]
anyhow = "1"
clap = { version = "4", features = ["derive"] }
ctrlc = "3"
futures = "0.3"
futures-time = "3"
homedir = "0.3"
iced = { version = "0.13", default-features = false, features = ["advanced"] }
interprocess = "2"
open = "5"
ron = "0.8"
serde = { version = "1", features = ["derive"] }
smol_str = "0.3"
