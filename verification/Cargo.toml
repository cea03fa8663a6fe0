[package]
name = "job_applier"
version = "0.1.0"
edition = "2021"
publish = false

[dependencies]
rand = "0.9"
clap = { version = "4", features = ["derive"] }
dotenv = "0.15"
tempfile = "3"
thirtyfour = "*"
tokio = { version = "1", features = ["full"] }
