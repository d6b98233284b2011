[package]
name = "command_supervisor"
version = "0.1.0"
edition = "2021"
publish = false

[dependencies]
error-chain = { version = "0.12", default-features = false }
futures = "0.1"
futures-cpupool = "0.1"
log = "0.3"
log4rs = { version = "0.7", default-features = false, features = ["file_appender", "pattern_encoder"] }
serde = "1"
serde_derive = "1"
shared_child = "0.3"
toml = "0.4"
winservice = "*"
