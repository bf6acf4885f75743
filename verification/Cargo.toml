[package]
name = "holochain_runner"
version = "0.1.0"
edition = "2021"
publish = false

[dependencies]
dotenv = "=0.15.0"
either = "1"
human-panic = "1"
one_err = "=0.0.8"
sodoken = "=0.0.11"
structopt = "0.3"
tokio = { version = "1", features = ["full"] }
tracing = "0.1"
