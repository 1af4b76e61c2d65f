[package]
name = "apvm"
version = "0.1.0"
edition = "2021"
publish = false

[dependencies]
json = "0.12"
rand = "0.9"
anyhow = "1"
clap = { version = "4", features = ["derive", "env"] }
env_logger = "0.11"
flate2 = "1"
fs_extra = "1.3"
homedir = "0.3"
reqwest = { version = "0.12", default-features = false, features = ["rustls-tls"] }
tar = "0.4"
tokio = { version = "1", features = ["macros", "rt-multi-thread", "process", "fs"] }
