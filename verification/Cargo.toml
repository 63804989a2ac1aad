[package]
name = "rig_example"
version = "0.1.0"
edition = "2021"
publish = false

[dependencies]
rig-core = { version = "=0.43.0", features = ["reqwest"] }
tokio = { version = "=1.53.2", features = ["rt-multi-thread"] }
clap = { version = "=4.6.7", features = ["derive"] }
dotenv = "=0.15.0"
