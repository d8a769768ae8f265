[package]
name = "pbot"
version = "0.1.0"
edition = "2021"
publish = false

[dependencies]
actix = "0.13"
anyhow = "1"
dotenv = "0.15"
futures = "0.3"
grammers-client = "0.3"
grammers-session = "0.3"
log = "0.4"
quote = "1"
rpassword = "5"
simple_logger = "4"
syn = { version = "1", features = ["full"] }
tokio = { version = "1", features = ["macros", "rt", "signal", "sync"] }
