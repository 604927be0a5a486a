[package]
name = "techlead"
version = "0.1.0"
edition = "2021"
publish = false

[dependencies]
anyhow = "=1.0.104"
chat-gpt-lib-rs = "=0.5.1"
console = "=0.16.6"
dotenvy = "=0.15.7"
env_logger = "=0.11.11"
ignore = "=0.4.33"
indicatif = "=0.18.6"
tokio = { version = "=1.54.1", features = ["macros", "rt-multi-thread"] }
