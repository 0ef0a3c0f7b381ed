[package]
name = "arbscan"
version = "0.1.0"
edition = "2021"
publish = false

[dependencies]
dotenv = "=0.15.0"
env_logger = "=0.11.11"
log = "=0.4.34"
solana-sdk = "=2.3.1"
tokio = { version = "=1.53.2", features = ["macros", "rt-multi-thread", "time"] }
