[package]
name = "fxbilibili"
version = "0.1.0"
edition = "2021"
publish = false

[dependencies]
chrono = "=0.4.45"
actix-web = { version = "=4.15.0", default-features = false, features = ["macros"] }
reqwest = { version = "=0.13.5", default-features = false, features = ["json", "query"] }
serde = { version = "=1.0.229", features = ["derive"] }
serde_json = "=1.0.151"
clap = { version = "=4.6.7", features = ["derive", "env"] }
anyhow = "=1.0.104"
async-trait = "=0.1.92"
dotenvy = "=0.15.7"
env_logger = "=0.11.11"
